//! Message dialog configuration.
//!
//! The dialog itself is drawn and run by the platform's utility screens
//! outside this library; the builder assembles the parameters — message
//! text, mode, options and language — as plain values.

use vstd::prelude::*;
use vstd::string::StringSliceAdditionalSpecFns;

verus! {

/// How a dialog was answered.
#[derive(Debug, Clone, Copy, PartialEq, Eq, Structural)]
pub enum DialogResult {
    /// The user confirmed (yes / ok).
    Confirm,
    /// The user declined (no).
    Cancel,
    /// The dialog was dismissed.
    Closed,
}

/// Error from a dialog operation, wrapping the raw device code.
#[derive(Debug, Clone, Copy, PartialEq, Eq, Structural)]
pub struct DialogError(pub i32);

/// Dialog mode: plain text or an error-code display.
#[derive(Debug, Clone, Copy, PartialEq, Eq, Structural)]
pub enum UtilityMsgDialogMode {
    /// Show an error code.
    Error,
    /// Show a text message.
    Text,
}

/// Option bits for the message dialog.
#[derive(Debug, Clone, Copy, PartialEq, Eq, Structural)]
pub struct UtilityMsgDialogOption(pub u32);

/// Option bits: error-code display.
pub const MSG_OPT_ERROR: u32 = 0;

/// Option bits: text display.
pub const MSG_OPT_TEXT: u32 = 1;

/// Option bits: show yes/no buttons.
pub const MSG_OPT_YES_NO_BUTTONS: u32 = 0x10;

/// System language selector for the dialog.
#[derive(Debug, Clone, Copy, PartialEq, Eq, Structural)]
pub enum SystemParamLanguage {
    Japanese,
    English,
    French,
    Spanish,
    German,
    Italian,
    Dutch,
    Portuguese,
    Russian,
    Korean,
    ChineseTraditional,
    ChineseSimplified,
}

/// The message text laid into the dialog's fixed 512-byte buffer: at most
/// 511 message bytes, the rest zero.
pub open spec fn spec_message_buf(msg: Seq<u8>) -> Seq<u8> {
    Seq::new(512nat, |i: int| if i < msg.len() && i < 511 { msg[i] } else { 0u8 })
}

/// Copy a message into the dialog's fixed 512-byte buffer, truncating at
/// 511 bytes and zero-filling the rest.
pub fn make_message_buf(message: &str) -> (r: Vec<u8>)
    ensures
        r@ == spec_message_buf(message.spec_bytes()),
{
    let bytes: &[u8] = message.as_bytes();
    let len: usize = if bytes.len() < 511 {
        bytes.len()
    } else {
        511
    };
    let mut buf: Vec<u8> = Vec::new();
    let mut i: usize = 0;
    while i < len
        invariant
            i <= len,
            len <= 511,
            len <= bytes@.len(),
            buf@.len() == i,
            forall|j: int| 0 <= j < i ==> buf@[j] == bytes@[j],
        decreases len - i,
    {
        buf.push(bytes[i]);
        i = i + 1;
    }
    while i < 512
        invariant
            len <= i <= 512,
            len <= 511,
            len <= bytes@.len(),
            buf@.len() == i,
            forall|j: int| 0 <= j < len ==> buf@[j] == bytes@[j],
            forall|j: int| len <= j < i ==> buf@[j] == 0u8,
        decreases 512 - i,
    {
        buf.push(0);
        i = i + 1;
    }
    proof {
        assert(buf@ =~= spec_message_buf(bytes@));
    }
    buf
}

/// Builder for a message dialog: the text buffer, mode, option bits,
/// language and error code, assembled before the platform shows it.
pub struct MessageDialogBuilder {
    /// The fixed 512-byte message buffer.
    pub message: Vec<u8>,
    /// Text or error mode.
    pub mode: UtilityMsgDialogMode,
    /// Option bits.
    pub options: UtilityMsgDialogOption,
    /// Dialog language.
    pub language: SystemParamLanguage,
    /// The error code shown in error mode.
    pub error_value: u32,
}

impl MessageDialogBuilder {
    /// A text dialog showing `message` in English.
    pub fn new(message: &str) -> (r: Self)
        ensures
            r.message@ == spec_message_buf(message.spec_bytes()),
            r.mode == UtilityMsgDialogMode::Text,
            r.options.0 == MSG_OPT_TEXT,
            r.language == SystemParamLanguage::English,
            r.error_value == 0,
    {
        MessageDialogBuilder {
            message: make_message_buf(message),
            mode: UtilityMsgDialogMode::Text,
            options: UtilityMsgDialogOption(MSG_OPT_TEXT),
            language: SystemParamLanguage::English,
            error_value: 0,
        }
    }

    /// Pick the dialog language.
    pub fn language(self, lang: SystemParamLanguage) -> (r: Self)
        ensures
            r.language == lang,
            r.message@ == self.message@,
            r.mode == self.mode,
            r.options == self.options,
            r.error_value == self.error_value,
    {
        MessageDialogBuilder { language: lang, ..self }
    }

    /// Add yes/no buttons.
    pub fn yes_no(self) -> (r: Self)
        ensures
            r.options.0 == self.options.0 | MSG_OPT_YES_NO_BUTTONS,
            r.message@ == self.message@,
            r.mode == self.mode,
            r.language == self.language,
            r.error_value == self.error_value,
    {
        let options = UtilityMsgDialogOption(self.options.0 | MSG_OPT_YES_NO_BUTTONS);
        MessageDialogBuilder { options, ..self }
    }

    /// Switch to error mode, showing `code`.
    pub fn error_mode(self, code: u32) -> (r: Self)
        ensures
            r.mode == UtilityMsgDialogMode::Error,
            r.options.0 == MSG_OPT_ERROR,
            r.error_value == code,
            r.message@ == self.message@,
            r.language == self.language,
    {
        MessageDialogBuilder {
            mode: UtilityMsgDialogMode::Error,
            options: UtilityMsgDialogOption(MSG_OPT_ERROR),
            error_value: code,
            ..self
        }
    }
}

} // verus!
