//! Value types describing a text editor's configuration: the validated
//! selection range, the input- and enter-key kinds, and the configuration
//! record with its builder.

use vstd::prelude::*;

verus! {

/// A validated half-open selection range `[start, end)` in native code
/// units: non-negative, ordered, and representable in the native integer
/// width.
#[derive(Clone, Copy, Debug, PartialEq, Eq, Structural)]
pub struct TextSelection {
    start: i32,
    end: i32,
}

/// Error for a selection whose bounds are out of order or too large for
/// the native integer width.
#[derive(Clone, Copy, Debug, PartialEq, Eq, Structural)]
pub struct InvalidSelection;

impl TextSelection {
    /// The start of the range.
    pub closed spec fn spec_start(self) -> int {
        self.start as int
    }

    /// The end of the range.
    pub closed spec fn spec_end(self) -> int {
        self.end as int
    }

    /// Every constructed selection is ordered and non-negative.
    pub open spec fn wf(self) -> bool {
        0 <= self.spec_start() <= self.spec_end() <= i32::MAX
    }

    /// Create a selection covering `[start, end)`.  Succeeds exactly when
    /// the bounds are ordered and fit the native integer width.
    pub fn new(start: usize, end: usize) -> (r: Result<TextSelection, InvalidSelection>)
        ensures
            r is Ok <==> start <= end && end <= i32::MAX,
            r matches Ok(sel) ==> sel.spec_start() == start && sel.spec_end() == end && sel.wf(),
    {
        if start <= end && end <= (i32::MAX as usize) {
            Ok(TextSelection { start: start as i32, end: end as i32 })
        } else {
            Err(InvalidSelection)
        }
    }

    pub fn start(&self) -> (r: i32)
        ensures
            r == self.spec_start(),
    {
        self.start
    }

    pub fn end(&self) -> (r: i32)
        ensures
            r == self.spec_end(),
    {
        self.end
    }
}

/// The kind of text a field accepts.
#[derive(Clone, Copy, Debug, PartialEq, Eq, Structural)]
pub enum TextInputType {
    /// No particular kind.
    Unspecified,
    Text,
    Multiline,
    Number,
    Phone,
    Datetime,
    EmailAddress,
    Url,
    VisiblePassword,
    NumberPassword,
    ScreenLockPassword,
    UserName,
    NewPassword,
    NumberDecimal,
    OneTimeCode,
}

impl TextInputType {
    /// The native code for this input type.
    pub open spec fn spec_raw(self) -> i32 {
        match self {
            TextInputType::Unspecified => -1i32,
            TextInputType::Text => 0,
            TextInputType::Multiline => 1,
            TextInputType::Number => 2,
            TextInputType::Phone => 3,
            TextInputType::Datetime => 4,
            TextInputType::EmailAddress => 5,
            TextInputType::Url => 6,
            TextInputType::VisiblePassword => 7,
            TextInputType::NumberPassword => 8,
            TextInputType::ScreenLockPassword => 9,
            TextInputType::UserName => 10,
            TextInputType::NewPassword => 11,
            TextInputType::NumberDecimal => 12,
            TextInputType::OneTimeCode => 13,
        }
    }

    /// The native code for this input type.
    pub fn to_raw(self) -> (r: i32)
        ensures
            r == self.spec_raw(),
    {
        match self {
            TextInputType::Unspecified => -1,
            TextInputType::Text => 0,
            TextInputType::Multiline => 1,
            TextInputType::Number => 2,
            TextInputType::Phone => 3,
            TextInputType::Datetime => 4,
            TextInputType::EmailAddress => 5,
            TextInputType::Url => 6,
            TextInputType::VisiblePassword => 7,
            TextInputType::NumberPassword => 8,
            TextInputType::ScreenLockPassword => 9,
            TextInputType::UserName => 10,
            TextInputType::NewPassword => 11,
            TextInputType::NumberDecimal => 12,
            TextInputType::OneTimeCode => 13,
        }
    }

    /// Translate a raw native input-type code; codes outside the defined
    /// range are rejected.
    pub fn from_raw(code: i32) -> (r: Option<TextInputType>)
        ensures
            r matches Some(t) ==> t.spec_raw() == code,
            r is Some <==> -1 <= code <= 13,
    {
        match code {
            -1i32 => Some(TextInputType::Unspecified),
            0i32 => Some(TextInputType::Text),
            1i32 => Some(TextInputType::Multiline),
            2i32 => Some(TextInputType::Number),
            3i32 => Some(TextInputType::Phone),
            4i32 => Some(TextInputType::Datetime),
            5i32 => Some(TextInputType::EmailAddress),
            6i32 => Some(TextInputType::Url),
            7i32 => Some(TextInputType::VisiblePassword),
            8i32 => Some(TextInputType::NumberPassword),
            9i32 => Some(TextInputType::ScreenLockPassword),
            10i32 => Some(TextInputType::UserName),
            11i32 => Some(TextInputType::NewPassword),
            12i32 => Some(TextInputType::NumberDecimal),
            13i32 => Some(TextInputType::OneTimeCode),
            _ => Option::None,
        }
    }
}

/// The enter-key variant a field asks the keyboard to display.
#[derive(Clone, Copy, Debug, PartialEq, Eq, Structural)]
pub enum EnterKeyType {
    /// No particular variant.
    Unspecified,
    /// The enter key performs no action.
    NoAction,
    Go,
    Search,
    Send,
    Next,
    Done,
    Previous,
    Newline,
}

impl EnterKeyType {
    /// The native code for this enter-key variant.
    pub open spec fn spec_raw(self) -> u32 {
        match self {
            EnterKeyType::Unspecified => 0,
            EnterKeyType::NoAction => 1,
            EnterKeyType::Go => 2,
            EnterKeyType::Search => 3,
            EnterKeyType::Send => 4,
            EnterKeyType::Next => 5,
            EnterKeyType::Done => 6,
            EnterKeyType::Previous => 7,
            EnterKeyType::Newline => 8,
        }
    }

    /// The native code for this enter-key variant.
    pub fn to_raw(self) -> (r: u32)
        ensures
            r == self.spec_raw(),
    {
        match self {
            EnterKeyType::Unspecified => 0,
            EnterKeyType::NoAction => 1,
            EnterKeyType::Go => 2,
            EnterKeyType::Search => 3,
            EnterKeyType::Send => 4,
            EnterKeyType::Next => 5,
            EnterKeyType::Done => 6,
            EnterKeyType::Previous => 7,
            EnterKeyType::Newline => 8,
        }
    }

    /// Translate a raw native enter-key code; codes outside the defined
    /// range are rejected.
    pub fn from_raw(code: u32) -> (r: Option<EnterKeyType>)
        ensures
            r matches Some(t) ==> t.spec_raw() == code,
            r is Some <==> code <= 8,
    {
        match code {
            0u32 => Some(EnterKeyType::Unspecified),
            1u32 => Some(EnterKeyType::NoAction),
            2u32 => Some(EnterKeyType::Go),
            3u32 => Some(EnterKeyType::Search),
            4u32 => Some(EnterKeyType::Send),
            5u32 => Some(EnterKeyType::Next),
            6u32 => Some(EnterKeyType::Done),
            7u32 => Some(EnterKeyType::Previous),
            8u32 => Some(EnterKeyType::Newline),
            _ => Option::None,
        }
    }
}

/// The configuration of one text editor, reported to the native subsystem
/// when it asks.
#[derive(Clone, Copy, Debug)]
pub struct TextConfig {
    pub input_type: TextInputType,
    pub enterkey_type: EnterKeyType,
    pub preview_text_support: bool,
    pub selection: Option<TextSelection>,
    pub window_id: Option<i32>,
}

impl Default for TextConfig {
    /// A plain-text configuration: no enter-key variant, no preview
    /// support, no selection, no window.
    fn default() -> (r: TextConfig)
        ensures
            r.input_type == TextInputType::Text,
            r.enterkey_type == EnterKeyType::Unspecified,
            !r.preview_text_support,
            r.selection is None,
            r.window_id is None,
    {
        TextConfigBuilder::new().build()
    }
}

/// Builder for [`TextConfig`], starting from the plain-text defaults.
pub struct TextConfigBuilder {
    pub input_type: TextInputType,
    pub enterkey_type: EnterKeyType,
    pub preview_text_support: bool,
    pub selection: Option<TextSelection>,
    pub window_id: Option<i32>,
}

impl TextConfigBuilder {
    pub fn new() -> (r: TextConfigBuilder)
        ensures
            r.input_type == TextInputType::Text,
            r.enterkey_type == EnterKeyType::Unspecified,
            !r.preview_text_support,
            r.selection is None,
            r.window_id is None,
    {
        TextConfigBuilder {
            input_type: TextInputType::Text,
            enterkey_type: EnterKeyType::Unspecified,
            preview_text_support: false,
            selection: Option::None,
            window_id: Option::None,
        }
    }

    pub fn build(&self) -> (r: TextConfig)
        ensures
            r.input_type == self.input_type,
            r.enterkey_type == self.enterkey_type,
            r.preview_text_support == self.preview_text_support,
            r.selection == self.selection,
            r.window_id == self.window_id,
    {
        TextConfig {
            input_type: self.input_type,
            enterkey_type: self.enterkey_type,
            preview_text_support: self.preview_text_support,
            selection: self.selection,
            window_id: self.window_id,
        }
    }

    pub fn input_type(self, input_type: TextInputType) -> (r: TextConfigBuilder)
        ensures
            r.input_type == input_type,
            r.enterkey_type == self.enterkey_type,
            r.preview_text_support == self.preview_text_support,
            r.selection == self.selection,
            r.window_id == self.window_id,
    {
        TextConfigBuilder {
            input_type,
            enterkey_type: self.enterkey_type,
            preview_text_support: self.preview_text_support,
            selection: self.selection,
            window_id: self.window_id,
        }
    }

    pub fn enterkey_type(self, enterkey_type: EnterKeyType) -> (r: TextConfigBuilder)
        ensures
            r.input_type == self.input_type,
            r.enterkey_type == enterkey_type,
            r.preview_text_support == self.preview_text_support,
            r.selection == self.selection,
            r.window_id == self.window_id,
    {
        TextConfigBuilder {
            input_type: self.input_type,
            enterkey_type,
            preview_text_support: self.preview_text_support,
            selection: self.selection,
            window_id: self.window_id,
        }
    }

    pub fn preview_text_support(self, preview_text_support: bool) -> (r: TextConfigBuilder)
        ensures
            r.input_type == self.input_type,
            r.enterkey_type == self.enterkey_type,
            r.preview_text_support == preview_text_support,
            r.selection == self.selection,
            r.window_id == self.window_id,
    {
        TextConfigBuilder {
            input_type: self.input_type,
            enterkey_type: self.enterkey_type,
            preview_text_support,
            selection: self.selection,
            window_id: self.window_id,
        }
    }

    pub fn selection(self, selection: TextSelection) -> (r: TextConfigBuilder)
        ensures
            r.input_type == self.input_type,
            r.enterkey_type == self.enterkey_type,
            r.preview_text_support == self.preview_text_support,
            r.selection == Some(selection),
            r.window_id == self.window_id,
    {
        TextConfigBuilder {
            input_type: self.input_type,
            enterkey_type: self.enterkey_type,
            preview_text_support: self.preview_text_support,
            selection: Some(selection),
            window_id: self.window_id,
        }
    }

    pub fn window_id(self, window_id: i32) -> (r: TextConfigBuilder)
        ensures
            r.input_type == self.input_type,
            r.enterkey_type == self.enterkey_type,
            r.preview_text_support == self.preview_text_support,
            r.selection == self.selection,
            r.window_id == Some(window_id),
    {
        TextConfigBuilder {
            input_type: self.input_type,
            enterkey_type: self.enterkey_type,
            preview_text_support: self.preview_text_support,
            selection: self.selection,
            window_id: Some(window_id),
        }
    }
}

} // verus!
