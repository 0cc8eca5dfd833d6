//! The main window's buttons.
use crate::server::ui::UiProtocolFromUiToServer;
use vstd::prelude::*;

verus! {

/// Whether two strings have the same characters.
pub fn str_equal(a: &str, b: &str) -> (r: bool)
    ensures
        r == (a@ == b@),
{
    let n = a.unicode_len();
    if n != b.unicode_len() {
        return false;
    }
    let mut i: usize = 0;
    while i < n
        invariant
            n == a@.len(),
            n == b@.len(),
            0 <= i <= n,
            forall|j: int| 0 <= j < i ==> a@[j] == b@[j],
        decreases n - i,
    {
        if a.get_char(i) != b.get_char(i) {
            return false;
        }
        i = i + 1;
    }
    assert(a@ =~= b@);
    true
}

/// The message that a clicked button sends to the server: the "test"
/// button asks for a notification test, the "ping" button for a device
/// ping; other ids send nothing.
pub fn handle_button(id: &str) -> (r: Option<UiProtocolFromUiToServer>)
    ensures
        id@ == "test"@ ==> r == Some(UiProtocolFromUiToServer::NotificationTest),
        id@ == "ping"@ ==> r == Some(UiProtocolFromUiToServer::RunDeviceConnectionPing),
        id@ != "test"@ && id@ != "ping"@ ==> r is None,
{
    proof {
        reveal_strlit("test");
        reveal_strlit("ping");
        assert("test"@[0] != "ping"@[0]);
    }
    if str_equal(id, "test") {
        Some(UiProtocolFromUiToServer::NotificationTest)
    } else if str_equal(id, "ping") {
        Some(UiProtocolFromUiToServer::RunDeviceConnectionPing)
    } else {
        None
    }
}

} // verus!
