//! The shell's fixed configuration: the server base URL, the window title,
//! and the well-known label of the primary window.

use vstd::prelude::*;

verus! {

/// The fixed base URL of the remote server that the webview is pointed at.
pub open spec fn server_url() -> Seq<char> {
    "https://my-messenger-9g2n.onrender.com"@
}

/// The fixed, human-readable title of the application window.
pub open spec fn window_title() -> Seq<char> {
    "My Messenger"@
}

/// The well-known label under which the host framework registers the
/// primary application window.
pub open spec fn main_window_label() -> Seq<char> {
    "main"@
}

/// The accessor bridged to the embedded web content. It takes no input,
/// cannot fail, and always returns the fixed server base URL.
pub fn get_server_url() -> (r: String)
    ensures
        r@ == server_url(),
{
    "https://my-messenger-9g2n.onrender.com".to_owned()
}

/// The window title as an owned string, for the host to apply.
pub fn window_title_text() -> (r: String)
    ensures
        r@ == window_title(),
{
    "My Messenger".to_owned()
}

/// The primary window's label as an owned string, for the host's lookup.
pub fn main_window_label_text() -> (r: String)
    ensures
        r@ == main_window_label(),
{
    "main".to_owned()
}

/// The bridged accessor is pure and idempotent: any two values it returns,
/// in one process or across any number of invocations, are equal byte for
/// byte, because each equals the one configured URL.
pub proof fn lemma_server_url_stable(r1: Seq<char>, r2: Seq<char>)
    requires
        r1 == server_url(),
        r2 == server_url(),
    ensures
        r1 == r2,
{
}

} // verus!
