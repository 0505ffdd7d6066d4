//! The values that a run is given: configuration, secrets, destination and
//! stored state, and whether transport is scripted or real.

use vstd::prelude::*;
use crate::assoc;
use crate::json;
use crate::json::{Json, JsonV};
use crate::text;

verus! {

/// How outbound calls are answered.
#[derive(Debug, Clone, Copy, PartialEq, Eq)]
pub enum HttpMode {
    Mock,
    Real,
}

/// The values of one run.
#[derive(Debug)]
pub struct Values {
    pub config: Vec<(String, Json)>,
    pub secrets: Vec<(String, Json)>,
    pub to: Vec<(String, Json)>,
    pub http: Option<String>,
    pub state: Vec<(String, Json)>,
}

pub ghost struct ValuesV {
    pub config: Seq<(Seq<char>, JsonV)>,
    pub secrets: Seq<(Seq<char>, JsonV)>,
    pub to: Seq<(Seq<char>, JsonV)>,
    pub http: Option<Seq<char>>,
    pub state: Seq<(Seq<char>, JsonV)>,
}

impl View for Values {
    type V = ValuesV;

    open spec fn view(&self) -> ValuesV {
        ValuesV {
            config: assoc::entries_view(self.config@),
            secrets: assoc::entries_view(self.secrets@),
            to: assoc::entries_view(self.to@),
            http: json::opt_view(self.http),
            state: assoc::entries_view(self.state@),
        }
    }
}

/// The mode that `http` asks for: real only where it says so, in any case
/// of letters; scripted where it says nothing or anything else.
pub open spec fn mode_of(http: Option<Seq<char>>) -> HttpMode {
    match http {
        Some(t) => if text::lowercase(t) == "real"@ {
            HttpMode::Real
        } else {
            HttpMode::Mock
        },
        None => HttpMode::Mock,
    }
}

/// The bytes of a secret: the text of a string as it stands, the compact
/// JSON text of any other value, and nothing where that cannot be printed.
pub open spec fn secret_value(v: JsonV) -> Seq<u8> {
    match v {
        JsonV::Str(t) => vstd::utf8::encode_utf8(t),
        other => match json::printed_text(other) {
            Some(t) => vstd::utf8::encode_utf8(t),
            None => Seq::empty(),
        },
    }
}

/// The secrets as bytes, entry by entry.
pub open spec fn secret_entries(s: Seq<(Seq<char>, JsonV)>) -> Seq<(Seq<char>, Seq<u8>)> {
    Seq::new(s.len(), |i: int| (s[i].0, secret_value(s[i].1)))
}

/// The text of a destination value: a string as it stands, the compact JSON
/// text of any other value; nothing where that cannot be printed.
pub open spec fn metadata_value(v: JsonV) -> Option<Seq<char>> {
    match v {
        JsonV::Str(t) => Some(t),
        other => json::printed_text(other),
    }
}

/// The destination as text pairs, without the entries that have no text.
pub open spec fn metadata_entries(s: Seq<(Seq<char>, JsonV)>) -> Seq<(Seq<char>, Seq<char>)>
    decreases s.len(),
{
    if s.len() == 0 {
        Seq::empty()
    } else {
        match metadata_value(s.last().1) {
            Some(t) => metadata_entries(s.drop_last()).push((s.last().0, t)),
            None => metadata_entries(s.drop_last()),
        }
    }
}

/// Whether each of the maps of the values holds every key once.
pub open spec fn well_formed(v: ValuesV) -> bool {
    &&& assoc::unique_keys(v.config)
    &&& assoc::unique_keys(v.secrets)
    &&& assoc::unique_keys(v.to)
    &&& assoc::unique_keys(v.state)
}

/// The JSON form of values.
pub open spec fn values_json(v: ValuesV) -> JsonV {
    JsonV::Object(
        Seq::empty().push(("config"@, JsonV::Object(v.config))).push(
            ("secrets"@, JsonV::Object(v.secrets)),
        ).push(("to"@, JsonV::Object(v.to))).push(("http"@, json::str_or_null(v.http))).push(
            ("state"@, JsonV::Object(v.state)),
        ),
    )
}

/// The destination as text pairs holds every key once where the destination does.
pub proof fn lemma_metadata_entries(s: Seq<(Seq<char>, JsonV)>)
    ensures
        forall|i: int|
            0 <= i < metadata_entries(s).len() ==> exists|k: int|
                0 <= k < s.len() && s[k].0 == (#[trigger] metadata_entries(s)[i]).0,
        assoc::unique_keys(s) ==> assoc::unique_keys(metadata_entries(s)),
    decreases s.len(),
{
    if s.len() > 0 {
        let front = s.drop_last();
        let mf = metadata_entries(front);
        let m = metadata_entries(s);
        lemma_metadata_entries(front);
        assert forall|i: int| 0 <= i < m.len() implies exists|k: int|
            0 <= k < s.len() && s[k].0 == (#[trigger] m[i]).0 by {
            if i < mf.len() {
                assert(m[i] == mf[i]);
                let k = choose|k: int| 0 <= k < front.len() && front[k].0 == mf[i].0;
                assert(s[k] == front[k]);
            } else {
                assert(s[s.len() - 1].0 == m[i].0);
            }
        }
        if assoc::unique_keys(s) {
            assert forall|i: int, j: int| 0 <= i < j < front.len() implies (
            #[trigger] front[i]).0 != (#[trigger] front[j]).0 by {
                assert(front[i] == s[i] && front[j] == s[j]);
            }
            assert forall|i: int, j: int| 0 <= i < j < m.len() implies (#[trigger] m[i]).0 != (
            #[trigger] m[j]).0 by {
                if j < mf.len() {
                    assert(m[i] == mf[i] && m[j] == mf[j]);
                } else {
                    assert(m[i] == mf[i]);
                    let k = choose|k: int| 0 <= k < front.len() && front[k].0 == mf[i].0;
                    assert(s[k] == front[k]);
                    assert(s[k].0 != s[s.len() - 1].0);
                }
            }
        }
    }
}

/// The values that `j` describes: every member may be left out; the maps
/// must be objects and `http` a string or null.
pub open spec fn decode_values(j: JsonV) -> Option<ValuesV> {
    match (
        json::entries_or_none_at(j, "config"@),
        json::entries_or_none_at(j, "secrets"@),
        json::entries_or_none_at(j, "to"@),
        json::opt_str_at(j, "http"@),
        json::entries_or_none_at(j, "state"@),
    ) {
        (Some(config), Some(secrets), Some(to), Some(http), Some(state)) => if j is Object {
            Some(ValuesV { config, secrets, to, http, state })
        } else {
            None
        },
        _ => None,
    }
}

/// The values that parsed bytes describe, or why they describe none.
pub open spec fn values_of_parsed(parsed: Result<JsonV, Seq<char>>) -> Result<ValuesV, Seq<char>> {
    match parsed {
        Err(e) => Err(e),
        Ok(j) => match decode_values(j) {
            Some(v) => Ok(v),
            None => Err("values do not have the expected members"@),
        },
    }
}

/// The view of values or the message in their place.
pub open spec fn values_result(r: Result<Values, String>) -> Result<ValuesV, Seq<char>> {
    match r {
        Ok(v) => Ok(v@),
        Err(e) => Err(e@),
    }
}

impl Values {
    /// Values that hold nothing.
    pub fn empty() -> (r: Values)
        ensures
            r@.config.len() == 0,
            r@.secrets.len() == 0,
            r@.to.len() == 0,
            r@.http is None,
            r@.state.len() == 0,
            well_formed(r@),
    {
        Values {
            config: Vec::new(),
            secrets: Vec::new(),
            to: Vec::new(),
            http: None,
            state: Vec::new(),
        }
    }

    /// A copy of these values.
    pub fn duplicate(&self) -> (r: Values)
        ensures
            r@ == self@,
    {
        Values {
            config: json::clone_entries(&self.config),
            secrets: json::clone_entries(&self.secrets),
            to: json::clone_entries(&self.to),
            http: crate::envelope::clone_opt(&self.http),
            state: json::clone_entries(&self.state),
        }
    }

    /// The JSON form of these values.
    pub fn to_json(&self) -> (r: Json)
        ensures
            r@ == values_json(self@),
    {
        let mut o = json::no_members();
        json::push_member(&mut o, "config", json::object(json::clone_entries(&self.config)));
        json::push_member(&mut o, "secrets", json::object(json::clone_entries(&self.secrets)));
        json::push_member(&mut o, "to", json::object(json::clone_entries(&self.to)));
        json::push_member(&mut o, "http", json::opt_str_json(&self.http));
        json::push_member(&mut o, "state", json::object(json::clone_entries(&self.state)));
        json::object(o)
    }

    /// The values that `j` describes, where it describes any. Each of their
    /// maps holds every key once: of the members of one name the last counts.
    pub fn from_json(j: &Json) -> (r: Option<Values>)
        ensures
            match r {
                Some(v) => decode_values(j@) == Some(v@) && well_formed(v@),
                None => decode_values(j@) is None,
            },
    {
        let config = match json::read_entries_or_none(j, "config") {
            Some(t) => t,
            None => {
                return None;
            },
        };
        let secrets = match json::read_entries_or_none(j, "secrets") {
            Some(t) => t,
            None => {
                return None;
            },
        };
        let to = match json::read_entries_or_none(j, "to") {
            Some(t) => t,
            None => {
                return None;
            },
        };
        let http = match json::read_opt_str(j, "http") {
            Some(t) => t,
            None => {
                return None;
            },
        };
        let state = match json::read_entries_or_none(j, "state") {
            Some(t) => t,
            None => {
                return None;
            },
        };
        match j {
            Json::Object(_) => Some(Values { config, secrets, to, http, state }),
            _ => None,
        }
    }

    /// The values that parsed bytes describe, or why they describe none.
    pub fn from_parsed(parsed: Result<Json, String>) -> (r: Result<Values, String>)
        ensures
            values_result(r) == values_of_parsed(crate::webex::json_result(parsed)),
            r matches Ok(v) ==> well_formed(v@),
    {
        match parsed {
            Err(e) => Err(e),
            Ok(j) => match Values::from_json(&j) {
                Some(v) => Ok(v),
                None => Err("values do not have the expected members".to_owned()),
            },
        }
    }

    /// The values that the bytes of a values file describe.
    pub fn parse(bytes: &[u8]) -> (r: Result<Values, String>)
        ensures
            values_result(r) == values_of_parsed(json::parsed(bytes@)),
            r matches Ok(v) ==> well_formed(v@),
    {
        Values::from_parsed(Json::parse(bytes))
    }

    /// How outbound calls are to be answered: scripted unless the values ask for real.
    pub fn http_mode(&self) -> (r: HttpMode)
        ensures
            r == mode_of(self@.http),
    {
        match &self.http {
            Some(t) => {
                if text::str_eq(text::to_ascii_lowercase(t.as_str()).as_str(), "real") {
                    HttpMode::Real
                } else {
                    HttpMode::Mock
                }
            },
            None => HttpMode::Mock,
        }
    }

    /// The secrets as bytes.
    pub fn secret_bytes(&self) -> (r: Vec<(String, Vec<u8>)>)
        ensures
            assoc::entries_view(r@) == secret_entries(self@.secrets),
            assoc::unique_keys(self@.secrets) ==> assoc::unique_keys(assoc::entries_view(r@)),
    {
        let mut out: Vec<(String, Vec<u8>)> = Vec::new();
        let mut i: usize = 0;
        while i < self.secrets.len()
            invariant
                i <= self.secrets.len(),
                out@.len() == i,
                forall|k: int|
                    0 <= k < i ==> out@[k].0@ == self.secrets@[k].0@ && out@[k].1@ == secret_value(
                        self.secrets@[k].1@,
                    ),
            decreases self.secrets.len() - i,
        {
            let bytes = match &self.secrets[i].1 {
                Json::Str(s) => text::bytes_of(s.as_str()),
                other => match other.to_text() {
                    Some(t) => text::bytes_of(t.as_str()),
                    None => Vec::new(),
                },
            };
            out.push((self.secrets[i].0.clone(), bytes));
            i += 1;
        }
        assert(assoc::entries_view(out@) =~= secret_entries(self@.secrets));
        out
    }

    /// The destination as text pairs.
    pub fn to_metadata(&self) -> (r: Vec<(String, String)>)
        ensures
            assoc::entries_view(r@) == metadata_entries(self@.to),
            assoc::unique_keys(self@.to) ==> assoc::unique_keys(assoc::entries_view(r@)),
    {
        proof {
            lemma_metadata_entries(self@.to);
        }
        let mut out: Vec<(String, String)> = Vec::new();
        let mut i: usize = 0;
        let ghost all = assoc::entries_view(self.to@);
        assert(all.take(0) =~= Seq::<(Seq<char>, JsonV)>::empty());
        assert(assoc::entries_view(out@) =~= Seq::empty());
        while i < self.to.len()
            invariant
                i <= self.to.len(),
                all == assoc::entries_view(self.to@),
                assoc::entries_view(out@) == metadata_entries(all.take(i as int)),
            decreases self.to.len() - i,
        {
            let ghost before = assoc::entries_view(out@);
            let value = match &self.to[i].1 {
                Json::Str(s) => Some(s.clone()),
                other => other.to_text(),
            };
            match value {
                Some(t) => {
                    out.push((self.to[i].0.clone(), t));
                    assert(assoc::entries_view(out@) =~= before.push((self.to@[i as int].0@, t@)));
                },
                None => {},
            }
            i += 1;
            assert(all.take(i as int).drop_last() =~= all.take(i - 1));
            assert(all.take(i as int).last() == all[i - 1]);
        }
        assert(all.take(self.to.len() as int) =~= all);
        out
    }
}

/// The JSON form of values whose maps hold every key once reads back as the values.
pub proof fn lemma_values_round_trip(v: ValuesV)
    requires
        well_formed(v),
    ensures
        decode_values(values_json(v)) == Some(v),
{
    assoc::lemma_collected(v.config);
    assoc::lemma_collected(v.secrets);
    assoc::lemma_collected(v.to);
    assoc::lemma_collected(v.state);
    reveal_strlit("config");
    reveal_strlit("secrets");
    reveal_strlit("to");
    reveal_strlit("http");
    reveal_strlit("state");
    assert("config"@.len() == 6 && "secrets"@.len() == 7 && "to"@.len() == 2);
    assert("http"@.len() == 4 && "state"@.len() == 5);
    let none = Seq::<(Seq<char>, JsonV)>::empty();
    let o0 = none.push(("config"@, JsonV::Object(v.config)));
    let o1 = o0.push(("secrets"@, JsonV::Object(v.secrets)));
    let o2 = o1.push(("to"@, JsonV::Object(v.to)));
    let o3 = o2.push(("http"@, json::str_or_null(v.http)));
    assoc::lemma_lookup_push(none, "config"@, JsonV::Object(v.config));
    assoc::lemma_lookup_push(o0, "secrets"@, JsonV::Object(v.secrets));
    assoc::lemma_lookup_push(o1, "to"@, JsonV::Object(v.to));
    assoc::lemma_lookup_push(o2, "http"@, json::str_or_null(v.http));
    assoc::lemma_lookup_push(o3, "state"@, JsonV::Object(v.state));
    let j = values_json(v);
    assert(j.get("config"@) == Some(JsonV::Object(v.config)));
    assert(j.get("secrets"@) == Some(JsonV::Object(v.secrets)));
    assert(j.get("to"@) == Some(JsonV::Object(v.to)));
    assert(j.get("http"@) == Some(json::str_or_null(v.http)));
    assert(j.get("state"@) == Some(JsonV::Object(v.state)));
}

} // verus!
