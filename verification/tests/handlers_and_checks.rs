use luna_rs::checks::VoiceCheck;
use luna_rs::checks::author_in_shared_voice_channel;
use luna_rs::checks::author_in_voice_channel;
use luna_rs::event_handlers::VoicePresence;
use luna_rs::event_handlers::should_leave;

fn human(channel: Option<u64>) -> VoicePresence {
    VoicePresence { channel_id: channel, is_bot: false }
}

fn bot(channel: Option<u64>) -> VoicePresence {
    VoicePresence { channel_id: channel, is_bot: true }
}

#[test]
fn unresolvable_channel_never_forces_a_leave() {
    let members = vec![human(Some(3)), bot(Some(3)), human(None)];
    assert!(!should_leave(None, &members));
    assert!(!should_leave(None, &Vec::new()));
}

#[test]
fn bot_alone_in_its_channel_leaves() {
    let members = vec![bot(Some(3)), human(Some(4)), human(None)];
    assert!(should_leave(Some(3), &members));
    assert!(should_leave(Some(3), &Vec::new()));
}

#[test]
fn a_listener_in_the_channel_keeps_the_session() {
    let members = vec![bot(Some(3)), human(Some(3))];
    assert!(!should_leave(Some(3), &members));
}

#[test]
fn listeners_elsewhere_do_not_count() {
    let members = vec![human(Some(4)), human(Some(5)), bot(Some(3))];
    assert!(should_leave(Some(3), &members));
}

#[test]
fn voice_channel_check_requires_a_voice_state() {
    assert_eq!(author_in_voice_channel(true), VoiceCheck::Allowed);
    assert_eq!(author_in_voice_channel(false), VoiceCheck::NotInVoice);
}

#[test]
fn shared_channel_check_decision_table() {
    assert_eq!(author_in_shared_voice_channel(Some(1), Some(1)), VoiceCheck::Allowed);
    assert_eq!(author_in_shared_voice_channel(Some(1), None), VoiceCheck::Allowed);
    assert_eq!(author_in_shared_voice_channel(Some(1), Some(2)), VoiceCheck::NotShared);
    assert_eq!(author_in_shared_voice_channel(None, Some(2)), VoiceCheck::NotShared);
    assert_eq!(author_in_shared_voice_channel(None, None), VoiceCheck::NotInVoice);
}
