//! What is needed to dispatch the document: the three settings, and the
//! email made from them.

use vstd::prelude::*;

verus! {

/// The subject of every reminder.
pub const SUBJECT: &'static str = "Daily reminder";

/// One of the settings that dispatch needs. All three are required, and
/// none has a default.
#[derive(Clone, Copy, Debug, PartialEq, Eq, Structural)]
pub enum Setting {
    /// The credential for the email provider.
    ApiKey,
    /// The address the email is sent from.
    Sender,
    /// The one address the email is sent to.
    Receiver,
}

impl Setting {
    /// The name of the environment variable that holds the setting.
    pub open spec fn variable_name(self) -> Seq<char> {
        match self {
            Setting::ApiKey => "API_KEY"@,
            Setting::Sender => "FROM_RESEND_EMAIL"@,
            Setting::Receiver => "RECEIVER_EMAIL"@,
        }
    }

    /// The name of the environment variable that holds the setting.
    pub fn variable(&self) -> (name: &'static str)
        ensures
            name@ == self.variable_name(),
    {
        match self {
            Setting::ApiKey => "API_KEY",
            Setting::Sender => "FROM_RESEND_EMAIL",
            Setting::Receiver => "RECEIVER_EMAIL",
        }
    }
}

/// Why no email could be prepared.
#[derive(Clone, Copy, Debug, PartialEq, Eq, Structural)]
pub enum ConfigError {
    /// The setting has no value.
    Missing(Setting),
}

/// An email with one recipient and an HTML body.
#[derive(Clone, Debug, PartialEq, Eq)]
pub struct Email {
    pub from: String,
    pub to: Vec<String>,
    pub subject: String,
    pub html: String,
}

/// An email ready to be sent, with the credential to send it.
#[derive(Clone, Debug, PartialEq, Eq)]
pub struct Dispatch {
    pub api_key: String,
    pub email: Email,
}

/// The first setting without a value, in the order credential, sender,
/// receiver.
pub open spec fn first_missing(
    api_key: Option<String>,
    from: Option<String>,
    to: Option<String>,
) -> Option<Setting> {
    if api_key is None {
        Some(Setting::ApiKey)
    } else if from is None {
        Some(Setting::Sender)
    } else if to is None {
        Some(Setting::Receiver)
    } else {
        None
    }
}

/// Prepares the reminder from the values of the three settings and the
/// rendered document. With all three present the email goes from the sender
/// to the one receiver, under the fixed subject, with the document as its
/// body. With any of them missing there is nothing to send, and the error
/// names the first that is missing.
pub fn prepare_email(
    api_key: Option<String>,
    from: Option<String>,
    to: Option<String>,
    html_content: String,
) -> (outcome: Result<Dispatch, ConfigError>)
    ensures
        outcome is Err <==> api_key is None || from is None || to is None,
        match outcome {
            Ok(dispatch) => {
                &&& api_key == Some(dispatch.api_key)
                &&& from == Some(dispatch.email.from)
                &&& to matches Some(receiver) && dispatch.email.to@ == seq![receiver]
                &&& dispatch.email.subject@ == SUBJECT@
                &&& dispatch.email.html == html_content
            },
            Err(ConfigError::Missing(setting)) => first_missing(api_key, from, to) == Some(
                setting,
            ),
        },
{
    let api_key = match api_key {
        Some(api_key) => api_key,
        None => {
            return Err(ConfigError::Missing(Setting::ApiKey));
        },
    };
    let from = match from {
        Some(from) => from,
        None => {
            return Err(ConfigError::Missing(Setting::Sender));
        },
    };
    let to = match to {
        Some(to) => to,
        None => {
            return Err(ConfigError::Missing(Setting::Receiver));
        },
    };
    let mut receivers: Vec<String> = Vec::new();
    receivers.push(to);
    let email = Email { from, to: receivers, subject: SUBJECT.to_owned(), html: html_content };
    Ok(Dispatch { api_key, email })
}

} // verus!
