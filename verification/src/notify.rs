//! Notifier, compute side: URL-encoding the alert text and building the
//! request URL for the messaging endpoint, and deciding the delivery outcome
//! from the HTTP status code. The request itself is performed by the caller.

use vstd::prelude::*;

verus! {

/// The percent-encoded form of a string, as `urlencoding` produces it. A
/// deterministic function of the text alone.
pub uninterp spec fn url_encoded(text: Seq<char>) -> Seq<char>;

/// An error of the notify side, per the error taxonomy.
#[derive(Clone, Copy, Debug, PartialEq, Eq, Structural)]
pub enum NotifyError {
    /// The HTTP request could not be sent at all.
    TransportError,
    /// The HTTP response status was not a success code.
    DeliveryError,
}

/// Relies on `urlencoding::encode`: percent-encodes the text, a
/// deterministic function of the text alone.
#[verifier::external_body]
fn url_encode(text: &str) -> (r: String)
    ensures
        r@ == url_encoded(text@),
{
    urlencoding::encode(text).into_owned()
}

/// The messaging-endpoint request URL for delivering `encoded_text` to
/// `chat_id` through the bot identified by `token`.
pub open spec fn notification_url_spec(
    token: Seq<char>,
    chat_id: Seq<char>,
    encoded_text: Seq<char>,
) -> Seq<char> {
    "https://api.telegram.org/bot"@ + token + "/sendMessage?chat_id="@ + chat_id
        + "&parse_mode=MarkdownV2&text="@ + encoded_text
}

/// Builds the messaging-endpoint request URL: the alert text is
/// percent-encoded and substituted into the fixed template together with the
/// bot token and chat identifier.
pub fn notification_url(token: &str, chat_id: &str, text: &str) -> (r: String)
    ensures
        r@ == notification_url_spec(token@, chat_id@, url_encoded(text@)),
{
    let encoded = url_encode(text);
    let mut r = String::from_str("https://api.telegram.org/bot");
    r.append(token);
    r.append("/sendMessage?chat_id=");
    r.append(chat_id);
    r.append("&parse_mode=MarkdownV2&text=");
    r.append(encoded.as_str());
    proof {
        assert(r@ =~= notification_url_spec(token@, chat_id@, url_encoded(text@)));
    }
    r
}

/// Whether an HTTP status code reports success: the 2xx range.
pub open spec fn is_success_status(status: int) -> bool {
    200 <= status < 300
}

/// Decides the delivery outcome from the HTTP status code of the messaging
/// endpoint's response: success for a 2xx status, `DeliveryError` otherwise.
pub fn delivery_outcome(status: u16) -> (r: Result<(), NotifyError>)
    ensures
        r is Ok <==> is_success_status(status as int),
        !is_success_status(status as int) ==> r == Err::<(), NotifyError>(
            NotifyError::DeliveryError,
        ),
{
    if 200 <= status && status < 300 {
        Ok(())
    } else {
        Err(NotifyError::DeliveryError)
    }
}

} // verus!
