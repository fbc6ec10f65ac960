//! The session and the configuration as the window of the desktop program shows them.

use crate::config::{Config, ConfigView};
use crate::session::{SessionSnapshot, SnapshotView};
use crate::text;
use crate::text::copy_text;
use crate::workdir::{WorkDir, WorkDirView};
use vstd::prelude::*;
use vstd::string::*;

verus! {

/// The session as it is shown.
#[derive(Debug, Clone)]
pub struct StatusDto {
    pub active_thread_id: Option<String>,
    pub active_turn_id: Option<String>,
    pub active_turn_running: bool,
    pub active_cwd: Option<String>,
    pub cwd_history: Vec<String>,
    pub pending_approval_message: Option<String>,
    pub pending_approval_supports_session: bool,
}

/// The configuration as it is shown.
#[derive(Debug, Clone)]
pub struct ConfigDto {
    pub telegram_bot_token_masked: String,
    pub telegram_allowed_user_id: Option<i64>,
    pub codex_binary: String,
    pub codex_cwd: String,
    pub codex_model: Option<String>,
    pub codex_approval_policy: String,
    pub codex_sandbox_mode: Option<String>,
}

/// Whether `status` shows `snapshot`, directories by their paths.
pub open spec fn shows_session(status: StatusDto, snapshot: SnapshotView) -> bool {
    &&& text::text_view(status.active_thread_id) == snapshot.active_thread_id
    &&& text::text_view(status.active_turn_id) == snapshot.active_turn_id
    &&& status.active_turn_running == snapshot.active_turn_running
    &&& text::text_view(status.active_cwd) == match snapshot.active_cwd {
        Some(cwd) => Some(cwd.display),
        None => None,
    }
    &&& status.cwd_history@.map_values(|s: String| s@) == snapshot.cwd_history.map_values(
        |d: WorkDirView| d.display,
    )
    &&& text::text_view(status.pending_approval_message) == snapshot.pending_approval_message
    &&& status.pending_approval_supports_session == snapshot.pending_approval_supports_session
}

fn paths_of(dirs: &Vec<WorkDir>) -> (paths: Vec<String>)
    ensures
        paths@.map_values(|s: String| s@) == dirs@.map_values(|d: WorkDir| d@.display),
{
    let mut paths: Vec<String> = Vec::new();
    let mut i: usize = 0;
    while i < dirs.len()
        invariant
            i <= dirs@.len(),
            paths@.len() == i,
            forall|j: int| 0 <= j < i ==> (#[trigger] paths@[j])@ == dirs@[j]@.display,
        decreases dirs@.len() - i,
    {
        paths.push(dirs[i].display().to_owned());
        i = i + 1;
    }
    assert(paths@.map_values(|s: String| s@) =~= dirs@.map_values(|d: WorkDir| d@.display));
    paths
}

/// The session as it is shown.
pub fn get_status(snapshot: SessionSnapshot) -> (status: StatusDto)
    ensures
        shows_session(status, snapshot@),
{
    let cwd_history = paths_of(&snapshot.cwd_history);
    assert(cwd_history@.map_values(|s: String| s@) =~= snapshot@.cwd_history.map_values(
        |d: WorkDirView| d.display,
    ));
    StatusDto {
        active_thread_id: snapshot.active_thread_id,
        active_turn_id: snapshot.active_turn_id,
        active_turn_running: snapshot.active_turn_running,
        active_cwd: match snapshot.active_cwd {
            Some(cwd) => Some(cwd.display().to_owned()),
            None => None,
        },
        cwd_history,
        pending_approval_message: snapshot.pending_approval_message,
        pending_approval_supports_session: snapshot.pending_approval_supports_session,
    }
}

/// The bytes of a token.
pub open spec fn token_bytes(token: Seq<char>) -> Seq<u8> {
    vstd::utf8::encode_utf8(token)
}

/// Whether a token can be cut four bytes from either end without cutting a character. A token
/// that is not cut can.
pub open spec fn can_be_masked(token: Seq<char>) -> bool {
    token_bytes(token).len() > 8 ==> vstd::utf8::is_char_boundary(token_bytes(token), 4)
        && vstd::utf8::is_char_boundary(token_bytes(token), token_bytes(token).len() - 4)
}

/// A token with its middle left out: of one of more than eight bytes the first and the last four
/// bytes are shown, of a shorter one nothing.
pub open spec fn masked(token: Seq<char>) -> Seq<char> {
    let bytes = token_bytes(token);
    if bytes.len() > 8 {
        vstd::utf8::decode_utf8(bytes.take(4)) + "…"@ + vstd::utf8::decode_utf8(
            bytes.skip(bytes.len() - 4),
        )
    } else {
        "****"@
    }
}

/// A token with its middle left out.
pub fn mask_token(token: &str) -> (shown: String)
    requires
        can_be_masked(token@),
    ensures
        shown@ == masked(token@),
{
    let length: usize = token.as_bytes().len();
    if length <= 8 {
        return "****".to_owned();
    }
    let head = token.split_at(4).0;
    let tail = token.split_at(length - 4).1;
    proof {
        vstd::utf8::encode_utf8_decode_utf8(head@);
        vstd::utf8::encode_utf8_decode_utf8(tail@);
        assert(head.spec_bytes() =~= token_bytes(token@).take(4));
        assert(tail.spec_bytes() =~= token_bytes(token@).skip(length - 4));
    }
    let mut shown = head.to_owned();
    shown.append("…");
    shown.append(tail);
    shown
}

/// Whether `shown` shows `config`, its token masked.
pub open spec fn shows_config(shown: ConfigDto, config: ConfigView) -> bool {
    &&& shown.telegram_bot_token_masked@ == masked(config.telegram_bot_token)
    &&& shown.telegram_allowed_user_id == config.telegram_allowed_user_id
    &&& shown.codex_binary@ == config.codex_binary
    &&& shown.codex_cwd@ == config.codex_cwd.display
    &&& text::text_view(shown.codex_model) == config.codex_model
    &&& shown.codex_approval_policy@ == config.codex_approval_policy
    &&& text::text_view(shown.codex_sandbox_mode) == config.codex_sandbox_mode
}

/// The configuration as it is shown.
pub fn get_config(config: &Config) -> (shown: ConfigDto)
    requires
        can_be_masked(config@.telegram_bot_token),
    ensures
        shows_config(shown, config@),
{
    ConfigDto {
        telegram_bot_token_masked: mask_token(config.telegram_bot_token.as_str()),
        telegram_allowed_user_id: config.telegram_allowed_user_id,
        codex_binary: config.codex_binary.clone(),
        codex_cwd: config.codex_cwd.display().to_owned(),
        codex_model: copy_text(&config.codex_model),
        codex_approval_policy: config.codex_approval_policy.clone(),
        codex_sandbox_mode: copy_text(&config.codex_sandbox_mode),
    }
}

/// A token of ASCII characters can be masked; of one that is longer than eight characters exactly
/// the first and the last four are shown.
pub proof fn law_plain_token_is_masked(token: Seq<char>)
    requires
        vstd::utf8::is_ascii_chars(token),
    ensures
        can_be_masked(token),
        token.len() > 8 ==> masked(token) == token.take(4) + "…"@ + token.skip(token.len() - 4),
        token.len() <= 8 ==> masked(token) == "****"@,
{
    let bytes = token_bytes(token);
    vstd::utf8::is_ascii_chars_encode_utf8(token);
    vstd::utf8::encode_utf8_valid_utf8(token);
    if token.len() > 8 {
        let head = token.take(4);
        let tail = token.skip(token.len() - 4);
        assert(token[4] as u8 == bytes[4]);
        assert(token[token.len() - 4] as u8 == bytes[token.len() - 4]);
        assert(vstd::utf8::is_leading_byte_width_1(bytes[4]));
        assert(vstd::utf8::is_leading_byte_width_1(bytes[bytes.len() - 4]));
        vstd::utf8::is_char_boundary_iff_is_leading_byte(bytes, 4);
        vstd::utf8::is_char_boundary_iff_is_leading_byte(bytes, bytes.len() - 4);
        assert forall|i: int| 0 <= i < head.len() implies '\0' <= #[trigger] head[i] <= '\u{7f}' by {
            assert(head[i] == token[i]);
        }
        assert forall|i: int| 0 <= i < tail.len() implies '\0' <= #[trigger] tail[i] <= '\u{7f}' by {
            assert(tail[i] == token[token.len() - 4 + i]);
        }
        vstd::utf8::is_ascii_chars_encode_utf8(head);
        vstd::utf8::is_ascii_chars_encode_utf8(tail);
        assert forall|i: int| 0 <= i < 4 implies token_bytes(head)[i] == bytes.take(4)[i] by {
            assert(head[i] == token[i]);
        }
        assert(token_bytes(head) =~= bytes.take(4));
        assert forall|i: int| 0 <= i < 4 implies token_bytes(tail)[i] == bytes.skip(
            bytes.len() - 4,
        )[i] by {
            assert(tail[i] == token[token.len() - 4 + i]);
        }
        assert(token_bytes(tail) =~= bytes.skip(bytes.len() - 4));
        vstd::utf8::encode_utf8_decode_utf8(head);
        vstd::utf8::encode_utf8_decode_utf8(tail);
    }
}

} // verus!
