use voice_presence::commands::{
    config_transcribe_voice_messages, to_decimal, CommandError, TranscriptionSetting,
};

#[test]
fn outside_a_guild_the_command_fails() {
    assert_eq!(config_transcribe_voice_messages(None, true), Err(CommandError::ExpectedGuild));
    assert_eq!(config_transcribe_voice_messages(None, false), Err(CommandError::ExpectedGuild));
}

#[test]
fn turning_transcription_on() {
    assert_eq!(
        config_transcribe_voice_messages(Some(675390855716274216), true),
        Ok(TranscriptionSetting {
            guild_key: 675390855716274216,
            transcribe_voice_messages: true,
            cache_key: "msg_transcript_675390855716274216".to_string(),
            reply_key: "config-transcribe-voice-messages-enabled",
        })
    );
}

#[test]
fn turning_transcription_off() {
    assert_eq!(
        config_transcribe_voice_messages(Some(42), false),
        Ok(TranscriptionSetting {
            guild_key: 42,
            transcribe_voice_messages: false,
            cache_key: "msg_transcript_42".to_string(),
            reply_key: "config-transcribe-voice-messages-disabled",
        })
    );
}

#[test]
fn a_guild_beyond_the_signed_range_wraps_in_the_store_key() {
    let setting = config_transcribe_voice_messages(Some(u64::MAX), true).expect("a guild");
    assert_eq!(setting.guild_key, -1);
    assert_eq!(setting.cache_key, "msg_transcript_18446744073709551615");
    let setting = config_transcribe_voice_messages(Some(1 << 63), true).expect("a guild");
    assert_eq!(setting.guild_key, i64::MIN);
}

#[test]
fn decimal_of_small_and_large_numbers() {
    assert_eq!(to_decimal(0), "0");
    assert_eq!(to_decimal(7), "7");
    assert_eq!(to_decimal(10), "10");
    assert_eq!(to_decimal(1234567890), "1234567890");
    assert_eq!(to_decimal(u64::MAX), "18446744073709551615");
}

#[test]
fn decimal_agrees_with_the_standard_formatting() {
    for value in [0u64, 1, 9, 10, 11, 99, 100, 101, 999, 1000, 65535, 4294967296, u64::MAX - 1] {
        assert_eq!(to_decimal(value), value.to_string());
    }
}
