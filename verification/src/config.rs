//! Fixed identifiers and endpoints of the sign-in chain.

use vstd::prelude::*;

verus! {

/// Client identifier registered with the identity provider.
pub const MS_CLIENT_ID: &'static str = "c36a9fb6-4f2a-41ff-90bd-ae7cc92031eb";

/// Scope requested with the device code and again on every refresh.
pub const MS_SCOPE: &'static str = "XboxLive.signin offline_access";

/// Service name under which every secret is filed in the credential store.
pub const KEYRING_SERVICE: &'static str = "mc-server-manager";

/// Endpoint that issues device codes.
pub const DEVICE_CODE_URL: &'static str =
    "https://login.microsoftonline.com/consumers/oauth2/v2.0/devicecode";

/// Endpoint that redeems device codes and refresh tokens.
pub const TOKEN_URL: &'static str = "https://login.microsoftonline.com/consumers/oauth2/v2.0/token";

/// Grant type sent while polling a device code.
pub const DEVICE_CODE_GRANT: &'static str = "urn:ietf:params:oauth:grant-type:device_code";

/// Grant type sent when redeeming a refresh token.
pub const REFRESH_GRANT: &'static str = "refresh_token";

/// Endpoint of the console-identity exchange.
pub const CONSOLE_AUTH_URL: &'static str = "https://user.auth.xboxlive.com/user/authenticate";

/// Endpoint of the relying-party exchange.
pub const RELYING_PARTY_AUTH_URL: &'static str = "https://xsts.auth.xboxlive.com/xsts/authorize";

/// Endpoint of the game-service login.
pub const GAME_LOGIN_URL: &'static str =
    "https://api.minecraftservices.com/authentication/login_with_xbox";

/// Endpoint of the game-service profile.
pub const PROFILE_URL: &'static str = "https://api.minecraftservices.com/minecraft/profile";

/// Relying party named in the console-identity exchange.
pub const CONSOLE_RELYING_PARTY: &'static str = "http://auth.xboxlive.com";

/// Relying party named in the relying-party exchange.
pub const GAME_RELYING_PARTY: &'static str = "rp://api.minecraftservices.com/";

/// Site name sent with the console-identity exchange.
pub const CONSOLE_SITE_NAME: &'static str = "user.auth.xboxlive.com";

/// Authentication method sent with the console-identity exchange.
pub const CONSOLE_AUTH_METHOD: &'static str = "RPS";

/// Value of `SandboxId` in the relying-party exchange.
pub const SANDBOX_ID: &'static str = "RETAIL";

/// Token type requested from both identity exchanges.
pub const TOKEN_TYPE: &'static str = "JWT";

/// Kind recorded on every account that this sign-in produces.
pub const ACCOUNT_KIND: &'static str = "federated";

} // verus!
