//! The setting that turns the transcription of voice messages on or off for
//! a guild: what is stored, which cache entry is dropped, and which message
//! answers the command.

use vstd::prelude::*;
use vstd::string::*;

verus! {

/// Why a command could not be carried out.
#[derive(Clone, Copy, Debug, PartialEq, Eq)]
pub enum CommandError {
    /// The command was given outside a guild.
    ExpectedGuild,
}

/// What is to be done for the command.
#[derive(Debug, PartialEq, Eq)]
pub struct TranscriptionSetting {
    /// The guild, as the store keys it.
    pub guild_key: i64,
    /// The value to store for the guild.
    pub transcribe_voice_messages: bool,
    /// The cache entry that the change makes stale.
    pub cache_key: String,
    /// The key of the message that confirms the change.
    pub reply_key: &'static str,
}

/// The decimal digit for a number below ten.
pub open spec fn digit(value: nat) -> char {
    if value == 0 {
        '0'
    } else if value == 1 {
        '1'
    } else if value == 2 {
        '2'
    } else if value == 3 {
        '3'
    } else if value == 4 {
        '4'
    } else if value == 5 {
        '5'
    } else if value == 6 {
        '6'
    } else if value == 7 {
        '7'
    } else if value == 8 {
        '8'
    } else {
        '9'
    }
}

/// A number written in decimal, without leading zeros.
pub open spec fn decimal(value: nat) -> Seq<char>
    decreases value,
{
    if value < 10 {
        seq![digit(value)]
    } else {
        decimal(value / 10).push(digit(value % 10))
    }
}

/// The cache entry that holds the transcription setting of a guild.
pub open spec fn cache_key_of(guild: u64) -> Seq<char> {
    "msg_transcript_"@ + decimal(guild as nat)
}

/// The key of the message that confirms the setting.
pub open spec fn reply_key_of(enabled: bool) -> Seq<char> {
    if enabled {
        "config-transcribe-voice-messages-enabled"@
    } else {
        "config-transcribe-voice-messages-disabled"@
    }
}

/// The digit for `value`, as a string.
fn digit_text(value: u64) -> (text: &'static str)
    requires
        value < 10,
    ensures
        text@ == seq![digit(value as nat)],
{
    proof {
        reveal_strlit("0");
        reveal_strlit("1");
        reveal_strlit("2");
        reveal_strlit("3");
        reveal_strlit("4");
        reveal_strlit("5");
        reveal_strlit("6");
        reveal_strlit("7");
        reveal_strlit("8");
        reveal_strlit("9");
    }
    let text = if value == 0 {
        "0"
    } else if value == 1 {
        "1"
    } else if value == 2 {
        "2"
    } else if value == 3 {
        "3"
    } else if value == 4 {
        "4"
    } else if value == 5 {
        "5"
    } else if value == 6 {
        "6"
    } else if value == 7 {
        "7"
    } else if value == 8 {
        "8"
    } else {
        "9"
    };
    assert(text@ =~= seq![digit(value as nat)]);
    text
}

/// Writes `value` in decimal.
pub fn to_decimal(value: u64) -> (text: String)
    ensures
        text@ == decimal(value as nat),
{
    let mut text = String::from_str(digit_text(value % 10));
    let mut rest = value / 10;
    while rest > 0
        invariant
            decimal(value as nat) == if rest > 0 {
                decimal(rest as nat) + text@
            } else {
                text@
            },
        decreases rest,
    {
        let ghost before = text@;
        let ghost upper = rest;
        text = String::from_str(digit_text(rest % 10)).concat(text.as_str());
        rest = rest / 10;
        proof {
            assert(text@ == seq![digit((upper % 10) as nat)] + before);
            if rest > 0 {
                assert(decimal(upper as nat) == decimal(rest as nat).push(digit((upper % 10) as nat)));
                assert(decimal(rest as nat).push(digit((upper % 10) as nat)) + before =~= decimal(
                    rest as nat,
                ) + text@);
            } else {
                assert(decimal(upper as nat) == seq![digit(upper as nat)]);
            }
        }
    }
    text
}

/// Works out what the command to turn the transcription of voice messages on
/// or off comes to: an error outside a guild, and else the value to store
/// under the guild, the cache entry to drop and the message to answer with.
pub fn config_transcribe_voice_messages(guild_id: Option<u64>, transcribe_voice_messages: bool) -> (setting:
    Result<TranscriptionSetting, CommandError>)
    ensures
        guild_id is None <==> setting == Err::<TranscriptionSetting, CommandError>(
            CommandError::ExpectedGuild,
        ),
        guild_id matches Some(guild) ==> {
            &&& setting matches Ok(found)
            &&& found.guild_key == guild as i64
            &&& found.transcribe_voice_messages == transcribe_voice_messages
            &&& found.cache_key@ == cache_key_of(guild)
            &&& found.reply_key@ == reply_key_of(transcribe_voice_messages)
        },
{
    match guild_id {
        Some(guild) => {
            let reply_key = if transcribe_voice_messages {
                "config-transcribe-voice-messages-enabled"
            } else {
                "config-transcribe-voice-messages-disabled"
            };
            let cache_key = String::from_str("msg_transcript_").concat(to_decimal(guild).as_str());
            Ok(
                TranscriptionSetting {
                    guild_key: #[verifier::truncate]
                    (guild as i64),
                    transcribe_voice_messages,
                    cache_key,
                    reply_key,
                },
            )
        },
        None => Err(CommandError::ExpectedGuild),
    }
}

} // verus!
