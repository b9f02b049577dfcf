//! The requests of the sign-in, as values for the caller to send.

use vstd::prelude::*;
use vstd::string::*;
use crate::config::{
    CONSOLE_AUTH_METHOD, CONSOLE_RELYING_PARTY, CONSOLE_SITE_NAME, DEVICE_CODE_GRANT,
    DEVICE_CODE_URL, GAME_RELYING_PARTY, MS_CLIENT_ID, MS_SCOPE, REFRESH_GRANT, SANDBOX_ID,
    TOKEN_TYPE, TOKEN_URL,
};

verus! {

/// One field of a form-encoded request.
#[derive(Debug, Clone, PartialEq, Eq)]
pub struct FormField {
    pub name: String,
    pub value: String,
}

/// A form-encoded POST.
#[derive(Debug, Clone, PartialEq, Eq)]
pub struct FormRequest {
    pub url: String,
    pub fields: Vec<FormField>,
}

impl FormRequest {
    /// The fields as pairs of name and value, in the order they are sent.
    pub open spec fn pairs(self) -> Seq<(Seq<char>, Seq<char>)> {
        Seq::new(self.fields@.len(), |i: int| (self.fields@[i].name@, self.fields@[i].value@))
    }
}

fn field(name: &str, value: &str) -> (r: FormField)
    ensures
        r.name@ == name@,
        r.value@ == value@,
{
    FormField { name: String::from_str(name), value: String::from_str(value) }
}

/// The request that asks the identity provider for a device code.
pub fn device_code_request() -> (r: FormRequest)
    ensures
        r.url@ == DEVICE_CODE_URL@,
        r.pairs() == seq![("client_id"@, MS_CLIENT_ID@), ("scope"@, MS_SCOPE@)],
{
    let mut fields: Vec<FormField> = Vec::new();
    fields.push(field("client_id", MS_CLIENT_ID));
    fields.push(field("scope", MS_SCOPE));
    let r = FormRequest { url: String::from_str(DEVICE_CODE_URL), fields };
    assert(r.pairs() =~= seq![("client_id"@, MS_CLIENT_ID@), ("scope"@, MS_SCOPE@)]);
    r
}

/// The request that asks whether `device_code` has been approved.
pub fn device_token_request(device_code: &str) -> (r: FormRequest)
    ensures
        r.url@ == TOKEN_URL@,
        r.pairs() == seq![
            ("client_id"@, MS_CLIENT_ID@),
            ("grant_type"@, DEVICE_CODE_GRANT@),
            ("device_code"@, device_code@),
        ],
{
    let mut fields: Vec<FormField> = Vec::new();
    fields.push(field("client_id", MS_CLIENT_ID));
    fields.push(field("grant_type", DEVICE_CODE_GRANT));
    fields.push(field("device_code", device_code));
    let r = FormRequest { url: String::from_str(TOKEN_URL), fields };
    assert(r.pairs() =~= seq![
        ("client_id"@, MS_CLIENT_ID@),
        ("grant_type"@, DEVICE_CODE_GRANT@),
        ("device_code"@, device_code@),
    ]);
    r
}

/// The request that redeems `refresh_token` for a new pair of tokens.
pub fn refresh_token_request(refresh_token: &str) -> (r: FormRequest)
    ensures
        r.url@ == TOKEN_URL@,
        r.pairs() == seq![
            ("client_id"@, MS_CLIENT_ID@),
            ("grant_type"@, REFRESH_GRANT@),
            ("refresh_token"@, refresh_token@),
            ("scope"@, MS_SCOPE@),
        ],
{
    let mut fields: Vec<FormField> = Vec::new();
    fields.push(field("client_id", MS_CLIENT_ID));
    fields.push(field("grant_type", REFRESH_GRANT));
    fields.push(field("refresh_token", refresh_token));
    fields.push(field("scope", MS_SCOPE));
    let r = FormRequest { url: String::from_str(TOKEN_URL), fields };
    assert(r.pairs() =~= seq![
        ("client_id"@, MS_CLIENT_ID@),
        ("grant_type"@, REFRESH_GRANT@),
        ("refresh_token"@, refresh_token@),
        ("scope"@, MS_SCOPE@),
    ]);
    r
}

/// Body of the console-identity exchange.
#[derive(Debug, Clone, PartialEq, Eq)]
pub struct ConsoleRequest {
    pub auth_method: String,
    pub site_name: String,
    pub rps_ticket: String,
    pub relying_party: String,
    pub token_type: String,
}

impl ConsoleRequest {
    /// This request presents `access_token` as its ticket.
    pub open spec fn presents(self, access_token: Seq<char>) -> bool {
        &&& self.auth_method@ == CONSOLE_AUTH_METHOD@
        &&& self.site_name@ == CONSOLE_SITE_NAME@
        &&& self.rps_ticket@ == "d="@ + access_token
        &&& self.relying_party@ == CONSOLE_RELYING_PARTY@
        &&& self.token_type@ == TOKEN_TYPE@
    }
}

/// The first exchange: the identity provider's access token for a
/// console-identity token.
pub fn console_request(access_token: &str) -> (r: ConsoleRequest)
    ensures
        r.presents(access_token@),
{
    ConsoleRequest {
        auth_method: String::from_str(CONSOLE_AUTH_METHOD),
        site_name: String::from_str(CONSOLE_SITE_NAME),
        rps_ticket: String::from_str("d=").concat(access_token),
        relying_party: String::from_str(CONSOLE_RELYING_PARTY),
        token_type: String::from_str(TOKEN_TYPE),
    }
}

/// Body of the relying-party exchange.
#[derive(Debug, Clone, PartialEq, Eq)]
pub struct RelyingPartyRequest {
    pub sandbox_id: String,
    pub user_tokens: Vec<String>,
    pub relying_party: String,
    pub token_type: String,
}

impl RelyingPartyRequest {
    /// This request presents `console_token` and nothing else.
    pub open spec fn presents(self, console_token: Seq<char>) -> bool {
        &&& self.sandbox_id@ == SANDBOX_ID@
        &&& self.user_tokens@.len() == 1
        &&& self.user_tokens@[0]@ == console_token
        &&& self.relying_party@ == GAME_RELYING_PARTY@
        &&& self.token_type@ == TOKEN_TYPE@
    }
}

/// The second exchange: the console-identity token for a token scoped to the
/// game service.
pub fn relying_party_request(console_token: &str) -> (r: RelyingPartyRequest)
    ensures
        r.presents(console_token@),
{
    let mut user_tokens: Vec<String> = Vec::new();
    user_tokens.push(String::from_str(console_token));
    RelyingPartyRequest {
        sandbox_id: String::from_str(SANDBOX_ID),
        user_tokens,
        relying_party: String::from_str(GAME_RELYING_PARTY),
        token_type: String::from_str(TOKEN_TYPE),
    }
}

/// The identity string of the game-service login: scheme, user hash and
/// relying-party token.
pub open spec fn identity_token_text(user_hash: Seq<char>, relying_party_token: Seq<char>) -> Seq<
    char,
> {
    "XBL3.0 x="@ + user_hash + ";"@ + relying_party_token
}

/// Body of the game-service login.
#[derive(Debug, Clone, PartialEq, Eq)]
pub struct LoginRequest {
    pub identity_token: String,
}

/// The third exchange: user hash and relying-party token for a game session.
pub fn login_request(user_hash: &str, relying_party_token: &str) -> (r: LoginRequest)
    ensures
        r.identity_token@ == identity_token_text(user_hash@, relying_party_token@),
{
    LoginRequest {
        identity_token: String::from_str("XBL3.0 x=").concat(user_hash).concat(";").concat(
            relying_party_token,
        ),
    }
}

/// A JSON value, as far as the bodies of the requests need one.
#[derive(Debug, PartialEq, Eq)]
pub enum JsonValue {
    Text(String),
    List(Vec<JsonValue>),
    Object(Vec<JsonMember>),
}

/// A member of a JSON object.
#[derive(Debug, PartialEq, Eq)]
pub struct JsonMember {
    pub name: String,
    pub value: JsonValue,
}

/// Whether `member` is named `name` and holds the string `text`.
pub open spec fn is_text_member(member: JsonMember, name: Seq<char>, text: Seq<char>) -> bool {
    &&& member.name@ == name
    &&& member.value is Text
    &&& member.value->Text_0@ == text
}

/// Whether `member` is named `name` and holds an object.
pub open spec fn is_object_member(member: JsonMember, name: Seq<char>) -> bool {
    &&& member.name@ == name
    &&& member.value is Object
}

/// Whether `member` is named `name` and holds the list of the strings of
/// `items`.
pub open spec fn is_list_member(member: JsonMember, name: Seq<char>, items: Seq<String>) -> bool {
    &&& member.name@ == name
    &&& member.value is List
    &&& member.value->List_0@.len() == items.len()
    &&& forall|i: int|
        0 <= i < items.len() ==> (#[trigger] member.value->List_0@[i]) is Text
            && member.value->List_0@[i]->Text_0@ == items[i]@
}

fn text_member(name: &str, text: &str) -> (r: JsonMember)
    ensures
        is_text_member(r, name@, text@),
{
    JsonMember { name: String::from_str(name), value: JsonValue::Text(String::from_str(text)) }
}

impl ConsoleRequest {
    /// Whether `body` is this request as the console-identity endpoint reads
    /// it: `Properties` with the method, the site and the ticket, then the
    /// relying party and the token type.
    pub open spec fn is_body(self, body: JsonValue) -> bool {
        &&& body is Object
        &&& body->Object_0@.len() == 3
        &&& is_object_member(body->Object_0@[0], "Properties"@)
        &&& body->Object_0@[0].value->Object_0@.len() == 3
        &&& is_text_member(
            body->Object_0@[0].value->Object_0@[0],
            "AuthMethod"@,
            self.auth_method@,
        )
        &&& is_text_member(body->Object_0@[0].value->Object_0@[1], "SiteName"@, self.site_name@)
        &&& is_text_member(body->Object_0@[0].value->Object_0@[2], "RpsTicket"@, self.rps_ticket@)
        &&& is_text_member(body->Object_0@[1], "RelyingParty"@, self.relying_party@)
        &&& is_text_member(body->Object_0@[2], "TokenType"@, self.token_type@)
    }

    /// The body to post.
    pub fn body(&self) -> (r: JsonValue)
        ensures
            self.is_body(r),
    {
        let mut properties: Vec<JsonMember> = Vec::new();
        properties.push(text_member("AuthMethod", self.auth_method.as_str()));
        properties.push(text_member("SiteName", self.site_name.as_str()));
        properties.push(text_member("RpsTicket", self.rps_ticket.as_str()));
        let mut top: Vec<JsonMember> = Vec::new();
        top.push(
            JsonMember {
                name: String::from_str("Properties"),
                value: JsonValue::Object(properties),
            },
        );
        top.push(text_member("RelyingParty", self.relying_party.as_str()));
        top.push(text_member("TokenType", self.token_type.as_str()));
        JsonValue::Object(top)
    }
}

impl RelyingPartyRequest {
    /// Whether `body` is this request as the relying-party endpoint reads it:
    /// `Properties` with the sandbox and the user tokens, then the relying
    /// party and the token type.
    pub open spec fn is_body(self, body: JsonValue) -> bool {
        &&& body is Object
        &&& body->Object_0@.len() == 3
        &&& is_object_member(body->Object_0@[0], "Properties"@)
        &&& body->Object_0@[0].value->Object_0@.len() == 2
        &&& is_text_member(body->Object_0@[0].value->Object_0@[0], "SandboxId"@, self.sandbox_id@)
        &&& is_list_member(
            body->Object_0@[0].value->Object_0@[1],
            "UserTokens"@,
            self.user_tokens@,
        )
        &&& is_text_member(body->Object_0@[1], "RelyingParty"@, self.relying_party@)
        &&& is_text_member(body->Object_0@[2], "TokenType"@, self.token_type@)
    }

    /// The body to post.
    pub fn body(&self) -> (r: JsonValue)
        ensures
            self.is_body(r),
    {
        let mut tokens: Vec<JsonValue> = Vec::new();
        let mut i: usize = 0;
        while i < self.user_tokens.len()
            invariant
                i <= self.user_tokens@.len(),
                tokens@.len() == i,
                forall|k: int|
                    0 <= k < i ==> (#[trigger] tokens@[k]) is Text && tokens@[k]->Text_0@
                        == self.user_tokens@[k]@,
            decreases self.user_tokens@.len() - i,
        {
            tokens.push(JsonValue::Text(self.user_tokens[i].clone()));
            i += 1;
        }
        let mut properties: Vec<JsonMember> = Vec::new();
        properties.push(text_member("SandboxId", self.sandbox_id.as_str()));
        properties.push(
            JsonMember { name: String::from_str("UserTokens"), value: JsonValue::List(tokens) },
        );
        let mut top: Vec<JsonMember> = Vec::new();
        top.push(
            JsonMember {
                name: String::from_str("Properties"),
                value: JsonValue::Object(properties),
            },
        );
        top.push(text_member("RelyingParty", self.relying_party.as_str()));
        top.push(text_member("TokenType", self.token_type.as_str()));
        JsonValue::Object(top)
    }
}

impl LoginRequest {
    /// Whether `body` is this request as the game-service login reads it: an
    /// object with the identity token and nothing else.
    pub open spec fn is_body(self, body: JsonValue) -> bool {
        &&& body is Object
        &&& body->Object_0@.len() == 1
        &&& is_text_member(body->Object_0@[0], "identityToken"@, self.identity_token@)
    }

    /// The body to post.
    pub fn body(&self) -> (r: JsonValue)
        ensures
            self.is_body(r),
    {
        let mut top: Vec<JsonMember> = Vec::new();
        top.push(text_member("identityToken", self.identity_token.as_str()));
        JsonValue::Object(top)
    }
}

} // verus!
