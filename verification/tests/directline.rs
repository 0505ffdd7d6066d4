use provider_harness::directline::{
    conversation_key, sanitize_team, ConversationState, DirectLineContext,
};

#[test]
fn conversation_key_includes_parts() {
    let ctx = DirectLineContext {
        env: "env1".into(),
        tenant: "tenant42".into(),
        team: Some("team-X".into()),
    };
    let key = conversation_key(&ctx, "conv-1");
    assert_eq!(key, "webchat:conv:env1:tenant42:team-X:conv-1");
}

#[test]
fn sanitize_team_falls_back() {
    assert_eq!(sanitize_team(Some("  ")), "_");
    assert_eq!(sanitize_team(None), "_");
    assert_eq!(sanitize_team(Some(" team ")), "team");
}

#[test]
fn conversation_state_initial() {
    let ctx = DirectLineContext { env: "env".into(), tenant: "tenant".into(), team: None };
    let mut state = ConversationState::new(ctx);
    assert_eq!(state.next_watermark, 0);
    let first = state.bump_watermark();
    assert_eq!(first, 0);
    assert_eq!(state.next_watermark, 1);
}

#[test]
fn conversation_key_without_team_uses_placeholder() {
    let ctx = DirectLineContext { env: "e".into(), tenant: "t".into(), team: None };
    assert_eq!(conversation_key(&ctx, "c"), "webchat:conv:e:t:_:c");
}

#[test]
fn watermark_stays_at_its_maximum() {
    let ctx = DirectLineContext { env: "e".into(), tenant: "t".into(), team: None };
    let mut state = ConversationState::new(ctx);
    state.next_watermark = u64::MAX;
    assert_eq!(state.bump_watermark(), u64::MAX);
    assert_eq!(state.next_watermark, u64::MAX);
}
