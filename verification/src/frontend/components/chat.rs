//! The chat page.

use vstd::prelude::*;
use vstd::string::*;

pub use crate::backend::messenger::RealTimeMessage;

verus! {

/// The address of the messenger connection of user `id` in channel 1.
pub fn chat_socket_url(ws_base: &str, id: &str) -> (r: String)
    ensures
        r@ == ws_base@ + "/messenger/connect/1/"@ + id@,
{
    let mut r = String::from_str(ws_base);
    r.append("/messenger/connect/1/");
    r.append(id);
    r
}

/// Whether the text typed in the message box is sent: when it is not empty.
pub fn should_send(message: &str) -> (b: bool)
    ensures
        b == (message@.len() > 0),
{
    !message.is_empty()
}

/// The style of a message's profile picture: the author's picture, falling
/// back to the default one.
pub fn profile_picture_style(api_base: &str, user_id: &str) -> (r: String)
    ensures
        r@ == "background-image: \n                                        url('"@ + api_base@
            + "/static/pfp/"@ + user_id@ + ".png'),\n                                        url('"@
            + api_base@ + "/static/public/default_pfp.png')"@,
{
    let mut r = String::from_str("background-image: \n                                        url('");
    r.append(api_base);
    r.append("/static/pfp/");
    r.append(user_id);
    r.append(".png'),\n                                        url('");
    r.append(api_base);
    r.append("/static/public/default_pfp.png')");
    r
}

/// The text that shows an error of the connection.
pub fn chat_error_text(error: &str) -> (r: String)
    ensures
        r@ == "Error: "@ + error@,
{
    let mut r = String::from_str("Error: ");
    r.append(error);
    r
}

} // verus!
