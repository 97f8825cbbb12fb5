//! What can go wrong, at start-up and while one prompt is served.

use vstd::prelude::*;
use vstd::string::StringExecFns;

verus! {

/// What the message of [`GenerationError::ApiStatus`] begins with.
pub const API_STATUS_PREFIX: &'static str = "APIエラー: ステータスコード ";

/// The message of [`GenerationError::EmptyResponse`].
pub const EMPTY_RESPONSE_MESSAGE: &'static str = "レスポンスにテキストが含まれていません";

/// What the message of [`ConfigError::NotFound`] begins with.
pub const NOT_FOUND_PREFIX: &'static str = "missing configuration field ";

/// The settings could not be put together.
#[derive(Debug, PartialEq, Eq)]
pub enum ConfigError {
    /// No value was there for the field of this name.
    NotFound(String),
}

/// The mathematical value of a [`ConfigError`].
pub ghost enum ConfigFailure {
    NotFound(Seq<char>),
}

impl View for ConfigError {
    type V = ConfigFailure;

    open spec fn view(&self) -> ConfigFailure {
        match self {
            ConfigError::NotFound(field) => ConfigFailure::NotFound(field@),
        }
    }
}

/// Why a prompt could not be turned into HTML. Each variant keeps what is
/// needed to diagnose it.
#[derive(Debug, PartialEq, Eq)]
pub enum GenerationError {
    /// The call did not complete: no status and no body came back.
    Transport { cause: String },
    /// The upstream service answered with a status outside 200..=299.
    ApiStatus { status: u16, body: String },
    /// The body is no JSON document, or not one of the expected shape.
    OuterDecode { error: String, body: String },
    /// The response holds no candidate, or its first candidate no part.
    EmptyResponse,
    /// The text of the first part is no JSON document, or it has no string
    /// under `html`.
    InnerDecode { error: String, text: String },
}

/// The mathematical value of a [`GenerationError`].
pub ghost enum GenerationFailure {
    Transport { cause: Seq<char> },
    ApiStatus { status: u16, body: Seq<char> },
    OuterDecode { error: Seq<char>, body: Seq<char> },
    EmptyResponse,
    InnerDecode { error: Seq<char>, text: Seq<char> },
}

impl View for GenerationError {
    type V = GenerationFailure;

    open spec fn view(&self) -> GenerationFailure {
        match self {
            GenerationError::Transport { cause } => GenerationFailure::Transport { cause: cause@ },
            GenerationError::ApiStatus { status, body } => GenerationFailure::ApiStatus {
                status: *status,
                body: body@,
            },
            GenerationError::OuterDecode { error, body } => GenerationFailure::OuterDecode {
                error: error@,
                body: body@,
            },
            GenerationError::EmptyResponse => GenerationFailure::EmptyResponse,
            GenerationError::InnerDecode { error, text } => GenerationFailure::InnerDecode {
                error: error@,
                text: text@,
            },
        }
    }
}

/// The character of a decimal digit.
pub open spec fn digit(value: int) -> char {
    if value == 0 {
        '0'
    } else if value == 1 {
        '1'
    } else if value == 2 {
        '2'
    } else if value == 3 {
        '3'
    } else if value == 4 {
        '4'
    } else if value == 5 {
        '5'
    } else if value == 6 {
        '6'
    } else if value == 7 {
        '7'
    } else if value == 8 {
        '8'
    } else {
        '9'
    }
}

/// A natural number in decimal, without leading zeros.
pub open spec fn decimal(value: nat) -> Seq<char>
    decreases value,
{
    if value < 10 {
        seq![digit(value as int)]
    } else {
        decimal(value / 10).push(digit((value % 10) as int))
    }
}

impl ConfigFailure {
    /// The text shown for the failure.
    pub open spec fn message(self) -> Seq<char> {
        match self {
            ConfigFailure::NotFound(field) => NOT_FOUND_PREFIX@ + seq!['"'] + field + seq!['"'],
        }
    }
}

impl GenerationFailure {
    /// The text shown for the failure.
    pub open spec fn message(self) -> Seq<char> {
        match self {
            GenerationFailure::Transport { cause } => cause,
            GenerationFailure::ApiStatus { status, body } => API_STATUS_PREFIX@ + decimal(
                status as nat,
            ),
            GenerationFailure::OuterDecode { error, body } => error,
            GenerationFailure::EmptyResponse => EMPTY_RESPONSE_MESSAGE@,
            GenerationFailure::InnerDecode { error, text } => error,
        }
    }
}

fn digit_text(value: u16) -> (text: &'static str)
    requires
        value < 10,
    ensures
        text@ == seq![digit(value as int)],
{
    proof {
        reveal_strlit("0");
        reveal_strlit("1");
        reveal_strlit("2");
        reveal_strlit("3");
        reveal_strlit("4");
        reveal_strlit("5");
        reveal_strlit("6");
        reveal_strlit("7");
        reveal_strlit("8");
        reveal_strlit("9");
    }
    let text = if value == 0 {
        "0"
    } else if value == 1 {
        "1"
    } else if value == 2 {
        "2"
    } else if value == 3 {
        "3"
    } else if value == 4 {
        "4"
    } else if value == 5 {
        "5"
    } else if value == 6 {
        "6"
    } else if value == 7 {
        "7"
    } else if value == 8 {
        "8"
    } else {
        "9"
    };
    assert(text@ =~= seq![digit(value as int)]);
    text
}

/// Writes a number in decimal.
pub fn decimal_text(value: u16) -> (text: String)
    ensures
        text@ == decimal(value as nat),
    decreases value,
{
    if value < 10 {
        digit_text(value).to_owned()
    } else {
        let mut text = decimal_text(value / 10);
        text.append(digit_text(value % 10));
        text
    }
}

impl ConfigError {
    /// The text to show for the error.
    pub fn message(&self) -> (text: String)
        ensures
            text@ == self@.message(),
    {
        proof {
            reveal_strlit("\"");
        }
        match self {
            ConfigError::NotFound(field) => {
                let mut text = NOT_FOUND_PREFIX.to_owned();
                text.append("\"");
                text.append(field.as_str());
                text.append("\"");
                assert("\""@ =~= seq!['"']);
                text
            },
        }
    }
}

impl GenerationError {
    /// The text to show for the error. The body and the inner text that an
    /// error keeps are for diagnosis and are not part of it.
    pub fn message(&self) -> (text: String)
        ensures
            text@ == self@.message(),
    {
        match self {
            GenerationError::Transport { cause } => cause.clone(),
            GenerationError::ApiStatus { status, body } => {
                let mut text = API_STATUS_PREFIX.to_owned();
                let number = decimal_text(*status);
                text.append(number.as_str());
                text
            },
            GenerationError::OuterDecode { error, body } => error.clone(),
            GenerationError::EmptyResponse => EMPTY_RESPONSE_MESSAGE.to_owned(),
            GenerationError::InnerDecode { error, text } => error.clone(),
        }
    }
}

} // verus!
