//! The service's endpoints and the answers they share.

use vstd::prelude::*;

verus! {

/// Sends a one-time passcode to an address, signing it up when it is new.
pub const SIGNUP_API: &'static str = "https://neighborhood.hackclub.com/api/signup";

/// Exchanges a one-time passcode for a token.
pub const VERIFY_OTP_API: &'static str = "https://neighborhood.hackclub.com/api/verifyOTP";

/// Posts a devlog.
pub const POST_DEVLOG_API: &'static str = "https://neighborhood.hackclub.com/api/postDevlog";

/// Submits a release.
pub const SHIP_APP_API: &'static str = "https://neighborhood.hackclub.com/api/shipApp";

/// Lists the projects of a user.
pub const GET_USER_APPS_API: &'static str = "https://neighborhood.hackclub.com/api/getUserApps";

/// An answer that carries only a message for the user.
#[derive(Debug)]
pub struct MessageResponse {
    pub message: String,
}

} // verus!
