//! What a provider requires of the values of a run, and the comparison of
//! the two: every required key that the values lack is reported, and a run
//! is permitted only when none is.

use vstd::prelude::*;
use crate::assoc;
use crate::json;
use crate::json::{Json, JsonV};
use crate::text;
use crate::values::{decode_values, Values, ValuesV};

verus! {

/// One required field.
#[derive(Debug)]
pub struct FieldRequirement {
    pub key: String,
    pub type_: Option<String>,
    pub example: Option<Json>,
}

/// The required fields of one category.
#[derive(Debug)]
pub struct RequirementGroup {
    pub required: Vec<FieldRequirement>,
}

/// The shape that a destination must have: its keys are required.
#[derive(Debug)]
pub struct ToRequirement {
    pub shape: Vec<(String, Json)>,
}

/// What a provider requires, and sample values if it offers any.
#[derive(Debug)]
pub struct Requirements {
    pub provider: String,
    pub config: RequirementGroup,
    pub secrets: RequirementGroup,
    pub to: ToRequirement,
    pub values: Option<Values>,
}

/// The required keys that the values lack, by category.
#[derive(Debug, Clone, PartialEq, Eq)]
pub struct ValidationReport {
    pub missing_config: Vec<String>,
    pub missing_secrets: Vec<String>,
    pub missing_to: Vec<String>,
}

pub ghost struct RequirementsV {
    pub provider: Seq<char>,
    pub required_config: Seq<Seq<char>>,
    pub required_secrets: Seq<Seq<char>>,
    pub required_destination_keys: Seq<Seq<char>>,
    pub values: Option<ValuesV>,
}

pub ghost struct ReportV {
    pub missing_config: Seq<Seq<char>>,
    pub missing_secrets: Seq<Seq<char>>,
    pub missing_to: Seq<Seq<char>>,
}

/// The keys of a list of required fields.
pub open spec fn field_keys(s: Seq<FieldRequirement>) -> Seq<Seq<char>> {
    Seq::new(s.len(), |i: int| s[i].key@)
}

/// The view of optional values.
pub open spec fn opt_values(v: Option<Values>) -> Option<ValuesV> {
    match v {
        Some(x) => Some(x@),
        None => None,
    }
}

impl View for Requirements {
    type V = RequirementsV;

    open spec fn view(&self) -> RequirementsV {
        RequirementsV {
            provider: self.provider@,
            required_config: field_keys(self.config.required@),
            required_secrets: field_keys(self.secrets.required@),
            required_destination_keys: assoc::keys(assoc::entries_view(self.to.shape@)),
            values: opt_values(self.values),
        }
    }
}

impl View for ValidationReport {
    type V = ReportV;

    open spec fn view(&self) -> ReportV {
        ReportV {
            missing_config: text::strings_view(self.missing_config@),
            missing_secrets: text::strings_view(self.missing_secrets@),
            missing_to: text::strings_view(self.missing_to@),
        }
    }
}

/// Whether no key stands twice in `s`.
pub open spec fn distinct(s: Seq<Seq<char>>) -> bool {
    forall|i: int, j: int| 0 <= i < j < s.len() ==> #[trigger] s[i] != #[trigger] s[j]
}

/// Whether the requirements are as a requirement file gives them: the
/// shape of the destination names every key once, and so do the maps of the
/// sample values.
pub open spec fn well_formed(r: RequirementsV) -> bool {
    &&& distinct(r.required_destination_keys)
    &&& r.values matches Some(v) ==> crate::values::well_formed(v)
}

/// The keys of `required` that `present` lacks, in the order of `required`.
pub open spec fn missing_keys<W>(required: Seq<Seq<char>>, present: Seq<(Seq<char>, W)>) -> Seq<
    Seq<char>,
>
    decreases required.len(),
{
    if required.len() == 0 {
        Seq::empty()
    } else if assoc::has_key(present, required.last()) {
        missing_keys(required.drop_last(), present)
    } else {
        missing_keys(required.drop_last(), present).push(required.last())
    }
}

/// The report on the values `v` under the requirements `r`.
pub open spec fn validation(r: RequirementsV, v: ValuesV) -> ReportV {
    ReportV {
        missing_config: missing_keys(r.required_config, v.config),
        missing_secrets: missing_keys(r.required_secrets, v.secrets),
        missing_to: missing_keys(r.required_destination_keys, v.to),
    }
}

/// Whether a report lists nothing.
pub open spec fn report_is_empty(r: ReportV) -> bool {
    r.missing_config.len() == 0 && r.missing_secrets.len() == 0 && r.missing_to.len() == 0
}

/// Whether the values `v` meet the requirements `r`: they have every required key.
pub open spec fn permitted(r: RequirementsV, v: ValuesV) -> bool {
    &&& forall|i: int|
        0 <= i < r.required_config.len() ==> assoc::has_key(v.config, #[trigger] r.required_config[i])
    &&& forall|i: int|
        0 <= i < r.required_secrets.len() ==> assoc::has_key(
            v.secrets,
            #[trigger] r.required_secrets[i],
        )
    &&& forall|i: int|
        0 <= i < r.required_destination_keys.len() ==> assoc::has_key(
            v.to,
            #[trigger] r.required_destination_keys[i],
        )
}

/// The missing keys are the required keys without the keys that are
/// present: a key is reported exactly when it is required and the values
/// have no entry under it, and nothing is reported where every required key
/// is present.
pub proof fn lemma_missing_keys<W>(required: Seq<Seq<char>>, present: Seq<(Seq<char>, W)>)
    ensures
        forall|k: Seq<char>|
            #![trigger missing_keys(required, present).contains(k)]
            missing_keys(required, present).contains(k) <==> (required.contains(k)
                && !assoc::keys(present).contains(k)),
        missing_keys(required, present).len() <= required.len(),
        missing_keys(required, present).len() == 0 <==> (forall|i: int|
            0 <= i < required.len() ==> assoc::has_key(present, #[trigger] required[i])),
    decreases required.len(),
{
    let m = missing_keys(required, present);
    if required.len() == 0 {
    } else {
        let front = required.drop_last();
        let last = required.last();
        lemma_missing_keys(front, present);
        let mf = missing_keys(front, present);
        assoc::lemma_has_key(present, last);
        assert forall|k: Seq<char>| #![trigger m.contains(k)] m.contains(k) <==> (
        required.contains(k) && !assoc::keys(present).contains(k)) by {
            assoc::lemma_has_key(present, k);
            if m.contains(k) {
                let i = choose|i: int| 0 <= i < m.len() && m[i] == k;
                if i < mf.len() {
                    assert(mf[i] == k);
                    assert(mf.contains(k));
                    let j = choose|j: int| 0 <= j < front.len() && front[j] == k;
                    assert(required[j] == k);
                } else {
                    assert(k == last);
                    assert(required[required.len() - 1] == k);
                }
            }
            if required.contains(k) && !assoc::keys(present).contains(k) {
                let j = choose|j: int| 0 <= j < required.len() && required[j] == k;
                if j < front.len() {
                    assert(front[j] == k);
                    assert(front.contains(k));
                    assert(mf.contains(k));
                    let i = choose|i: int| 0 <= i < mf.len() && mf[i] == k;
                    assert(m[i] == k);
                } else {
                    assert(k == last);
                    assert(m[m.len() - 1] == k);
                }
            }
        }
        if m.len() == 0 {
            assert forall|i: int| 0 <= i < required.len() implies assoc::has_key(
                present,
                #[trigger] required[i],
            ) by {
                if i < front.len() {
                    assert(front[i] == required[i]);
                }
            }
        }
        if forall|i: int| 0 <= i < required.len() ==> assoc::has_key(present, #[trigger] required[i]) {
            assert(assoc::has_key(present, required[required.len() - 1]));
            assert forall|i: int| 0 <= i < front.len() implies assoc::has_key(
                present,
                #[trigger] front[i],
            ) by {
                assert(front[i] == required[i]);
            }
        }
    }
}

/// Where no required key stands twice, no key is reported twice.
pub proof fn lemma_missing_keys_distinct<W>(required: Seq<Seq<char>>, present: Seq<(Seq<char>, W)>)
    requires
        distinct(required),
    ensures
        distinct(missing_keys(required, present)),
    decreases required.len(),
{
    if required.len() > 0 {
        let front = required.drop_last();
        let last = required.last();
        assert forall|i: int, j: int| 0 <= i < j < front.len() implies #[trigger] front[i]
            != #[trigger] front[j] by {
            assert(front[i] == required[i] && front[j] == required[j]);
        }
        lemma_missing_keys_distinct(front, present);
        lemma_missing_keys(front, present);
        let mf = missing_keys(front, present);
        let m = missing_keys(required, present);
        assert forall|i: int, j: int| 0 <= i < j < m.len() implies #[trigger] m[i] != #[trigger] m[j] by {
            if j < mf.len() {
                assert(m[i] == mf[i] && m[j] == mf[j]);
            } else {
                assert(m[i] == mf[i]);
                assert(mf.contains(mf[i]));
                assert(front.contains(mf[i]));
                let k = choose|k: int| 0 <= k < front.len() && front[k] == mf[i];
                assert(required[k] == mf[i]);
                assert(required[k] != required[required.len() - 1]);
            }
        }
    }
}

/// A map that holds every key once has keys that all differ.
pub proof fn lemma_keys_distinct<W>(s: Seq<(Seq<char>, W)>)
    requires
        assoc::unique_keys(s),
    ensures
        distinct(assoc::keys(s)),
{
    let k = assoc::keys(s);
    assert forall|i: int, j: int| 0 <= i < j < k.len() implies #[trigger] k[i] != #[trigger] k[j] by {
        assert(s[i].0 != s[j].0);
    }
}

/// A report is empty exactly when the values meet the requirements.
pub proof fn lemma_report_empty_iff_permitted(r: RequirementsV, v: ValuesV)
    ensures
        report_is_empty(validation(r, v)) <==> permitted(r, v),
{
    lemma_missing_keys(r.required_config, v.config);
    lemma_missing_keys(r.required_secrets, v.secrets);
    lemma_missing_keys(r.required_destination_keys, v.to);
}

/// The required field that `j` describes: an object with a string `key`.
pub open spec fn decode_field(j: JsonV) -> Option<Seq<char>> {
    match (j.str_at("key"@), json::opt_str_at(j, "type"@)) {
        (Some(k), Some(_)) => Some(k),
        _ => None,
    }
}

/// The keys that the member `required` of the group `j` lists; none where
/// the group or the member is missing.
pub open spec fn decode_group(j: Option<JsonV>) -> Option<Seq<Seq<char>>> {
    match j {
        None => Some(Seq::empty()),
        Some(g) => match g {
            JsonV::Object(_) => match g.get("required"@) {
                None => Some(Seq::empty()),
                Some(JsonV::Array(items)) => if forall|i: int|
                    0 <= i < items.len() ==> decode_field(#[trigger] items[i]) is Some {
                    Some(Seq::new(items.len(), |i: int| decode_field(items[i])->0))
                } else {
                    None
                },
                Some(_) => None,
            },
            _ => None,
        },
    }
}

/// The keys of the member `shape` of the destination requirement `j`.
pub open spec fn decode_shape(j: Option<JsonV>) -> Option<Seq<(Seq<char>, JsonV)>> {
    match j {
        None => Some(Seq::empty()),
        Some(t) => match t {
            JsonV::Object(_) => json::entries_or_none_at(t, "shape"@),
            _ => None,
        },
    }
}

/// The sample values that the member `j` holds: none where it is missing or null.
pub open spec fn decode_sample(j: Option<JsonV>) -> Option<Option<ValuesV>> {
    match j {
        None => Some(None),
        Some(JsonV::Null) => Some(None),
        Some(v) => match decode_values(v) {
            Some(x) => Some(Some(x)),
            None => None,
        },
    }
}

/// The requirements that `j` describes: `provider` is required, the rest may be left out.
pub open spec fn decode_requirements(j: JsonV) -> Option<RequirementsV> {
    match (
        j.str_at("provider"@),
        decode_group(j.get("config"@)),
        decode_group(j.get("secrets"@)),
        decode_shape(j.get("to"@)),
        decode_sample(j.get("values"@)),
    ) {
        (Some(provider), Some(config), Some(secrets), Some(shape), Some(values)) => Some(
            RequirementsV {
                provider,
                required_config: config,
                required_secrets: secrets,
                required_destination_keys: assoc::keys(shape),
                values,
            },
        ),
        _ => None,
    }
}

/// The name, below the directory of provider fixtures, of the requirements of `provider`.
pub open spec fn requirements_file(provider: Seq<char>) -> Seq<char> {
    provider + ".requirements.json"@
}

fn group_from_json(j: Option<&Json>) -> (r: Option<RequirementGroup>)
    ensures
        match r {
            Some(g) => decode_group(crate::envelope::json_opt(j)) == Some(
                field_keys(g.required@),
            ),
            None => decode_group(crate::envelope::json_opt(j)) is None,
        },
{
    let group = match j {
        None => {
            let g = RequirementGroup { required: Vec::new() };
            assert(field_keys(g.required@) =~= Seq::empty());
            return Some(g);
        },
        Some(g) => g,
    };
    match group {
        Json::Object(_) => {},
        _ => {
            return None;
        },
    }
    let list = match group.get("required") {
        None => {
            let g = RequirementGroup { required: Vec::new() };
            assert(field_keys(g.required@) =~= Seq::empty());
            return Some(g);
        },
        Some(l) => l,
    };
    match list.as_array() {
        None => None,
        Some(items) => {
            let mut out: Vec<FieldRequirement> = Vec::new();
            let mut i: usize = 0;
            while i < items.len()
                invariant
                    i <= items.len(),
                    out@.len() == i,
                    list@ == JsonV::Array(json::items_view(items@)),
                    group@ is Object,
                    group@.get("required"@) == Some(list@),
                    crate::envelope::json_opt(j) == Some(group@),
                    forall|k: int|
                        0 <= k < i ==> decode_field(#[trigger] json::items_view(items@)[k])
                            == Some(out@[k].key@),
                decreases items.len() - i,
            {
                let key = items[i].str_at("key");
                let type_ = json::read_opt_str(&items[i], "type");
                match (key, type_) {
                    (Some(k), Some(t)) => {
                        let example = match items[i].get("example") {
                            Some(e) => Some(e.deep_clone()),
                            None => None,
                        };
                        out.push(FieldRequirement { key: k, type_: t, example });
                    },
                    _ => {
                        assert(decode_field(json::items_view(items@)[i as int]) is None);
                        return None;
                    },
                }
                i += 1;
            }
            assert(decode_group(Some(group@)) is Some);
            assert(field_keys(out@) =~= decode_group(Some(group@))->0);
            Some(RequirementGroup { required: out })
        },
    }
}

fn collect_missing_fields(required: &Vec<FieldRequirement>, present: &Vec<(String, Json)>) -> (r:
    Vec<String>)
    ensures
        text::strings_view(r@) == missing_keys(
            field_keys(required@),
            assoc::entries_view(present@),
        ),
{
    let mut out: Vec<String> = Vec::new();
    let mut i: usize = 0;
    let ghost all = field_keys(required@);
    assert(all.take(0) =~= Seq::<Seq<char>>::empty());
    assert(text::strings_view(out@) =~= Seq::empty());
    while i < required.len()
        invariant
            i <= required.len(),
            all == field_keys(required@),
            text::strings_view(out@) == missing_keys(
                all.take(i as int),
                assoc::entries_view(present@),
            ),
        decreases required.len() - i,
    {
        let ghost before = text::strings_view(out@);
        if !assoc::contains_key(present, required[i].key.as_str()) {
            out.push(required[i].key.clone());
            assert(text::strings_view(out@) =~= before.push(required@[i as int].key@));
        }
        i += 1;
        assert(all.take(i as int).drop_last() =~= all.take(i - 1));
        assert(all.take(i as int).last() == all[i - 1]);
    }
    assert(all.take(required.len() as int) =~= all);
    out
}

fn collect_missing_keys(shape: &Vec<(String, Json)>, present: &Vec<(String, Json)>) -> (r: Vec<
    String,
>)
    ensures
        text::strings_view(r@) == missing_keys(
            assoc::keys(assoc::entries_view(shape@)),
            assoc::entries_view(present@),
        ),
{
    let mut out: Vec<String> = Vec::new();
    let mut i: usize = 0;
    let ghost all = assoc::keys(assoc::entries_view(shape@));
    assert(all.take(0) =~= Seq::<Seq<char>>::empty());
    assert(text::strings_view(out@) =~= Seq::empty());
    while i < shape.len()
        invariant
            i <= shape.len(),
            all == assoc::keys(assoc::entries_view(shape@)),
            text::strings_view(out@) == missing_keys(
                all.take(i as int),
                assoc::entries_view(present@),
            ),
        decreases shape.len() - i,
    {
        let ghost before = text::strings_view(out@);
        if !assoc::contains_key(present, shape[i].0.as_str()) {
            out.push(shape[i].0.clone());
            assert(text::strings_view(out@) =~= before.push(shape@[i as int].0@));
        }
        i += 1;
        assert(all.take(i as int).drop_last() =~= all.take(i - 1));
        assert(all.take(i as int).last() == all[i - 1]);
    }
    assert(all.take(shape.len() as int) =~= all);
    out
}

impl ValidationReport {
    /// Whether nothing is missing.
    pub fn is_empty(&self) -> (r: bool)
        ensures
            r == report_is_empty(self@),
    {
        self.missing_config.len() == 0 && self.missing_secrets.len() == 0 && self.missing_to.len()
            == 0
    }
}

impl Requirements {
    /// The name, below the directory of provider fixtures, of the requirements of `provider`.
    pub fn file_name(provider: &str) -> (r: String)
        ensures
            r@ == requirements_file(provider@),
    {
        text::concat(provider, ".requirements.json")
    }

    /// The requirements that `j` describes, where it describes any. The
    /// shape of the destination names every key once.
    pub fn from_json(j: &Json) -> (r: Option<Requirements>)
        ensures
            match r {
                Some(q) => decode_requirements(j@) == Some(q@) && well_formed(q@),
                None => decode_requirements(j@) is None,
            },
    {
        let provider = match j.str_at("provider") {
            Some(t) => t,
            None => {
                return None;
            },
        };
        let config = match group_from_json(j.get("config")) {
            Some(t) => t,
            None => {
                return None;
            },
        };
        let secrets = match group_from_json(j.get("secrets")) {
            Some(t) => t,
            None => {
                return None;
            },
        };
        let shape = match j.get("to") {
            None => json::no_members(),
            Some(t) => match t {
                Json::Object(_) => match json::read_entries_or_none(t, "shape") {
                    Some(s) => s,
                    None => {
                        return None;
                    },
                },
                _ => {
                    return None;
                },
            },
        };
        let values = match j.get("values") {
            None => None,
            Some(Json::Null) => None,
            Some(v) => match Values::from_json(v) {
                Some(x) => Some(x),
                None => {
                    return None;
                },
            },
        };
        proof {
            lemma_keys_distinct(assoc::entries_view(shape@));
        }
        Some(Requirements { provider, config, secrets, to: ToRequirement { shape }, values })
    }

    /// Compares the values with these requirements: every required key that
    /// the values lack is reported, in each of the three categories, and no
    /// key twice where it is required once.
    pub fn validate(&self, values: &Values) -> (r: ValidationReport)
        ensures
            r@ == validation(self@, values@),
            r@.missing_config == missing_keys(self@.required_config, values@.config),
            r@.missing_secrets == missing_keys(self@.required_secrets, values@.secrets),
            r@.missing_to == missing_keys(self@.required_destination_keys, values@.to),
            report_is_empty(r@) <==> permitted(self@, values@),
            distinct(self@.required_config) ==> distinct(r@.missing_config),
            distinct(self@.required_secrets) ==> distinct(r@.missing_secrets),
            well_formed(self@) ==> distinct(r@.missing_to),
    {
        proof {
            lemma_report_empty_iff_permitted(self@, values@);
            if distinct(self@.required_config) {
                lemma_missing_keys_distinct(self@.required_config, values@.config);
            }
            if distinct(self@.required_secrets) {
                lemma_missing_keys_distinct(self@.required_secrets, values@.secrets);
            }
            if distinct(self@.required_destination_keys) {
                lemma_missing_keys_distinct(self@.required_destination_keys, values@.to);
            }
        }
        ValidationReport {
            missing_config: collect_missing_fields(&self.config.required, &values.config),
            missing_secrets: collect_missing_fields(&self.secrets.required, &values.secrets),
            missing_to: collect_missing_keys(&self.to.shape, &values.to),
        }
    }
}

} // verus!
