//! What every request needs: who asks, and how the one who asks is
//! announced.

pub mod requests;

use vstd::prelude::*;
use vstd::string::*;

use crate::text::{obscure, stars};

verus! {

/// The verb of a request.
#[derive(Debug, Clone, Copy, PartialEq, Eq, Structural, Hash)]
pub enum Method {
    Get,
    Put,
    Post,
    Patch,
    Delete,
}

/// The two kinds of token, each with its secret.
pub enum InnerToken {
    Bot { bot_token: String },
    Bearer { bearer_token: String },
}

/// The secret that says who asks. It is not shown: see
/// [`obscured`](Token::obscured).
pub struct Token(pub InnerToken);

impl Token {
    /// The token of a bot.
    pub fn bot(bot_token: String) -> (r: Self)
        ensures
            r.0 == (InnerToken::Bot { bot_token }),
    {
        Self(InnerToken::Bot { bot_token })
    }

    /// The token that a user has granted to an application.
    pub fn bearer(bearer_token: String) -> (r: Self)
        ensures
            r.0 == (InnerToken::Bearer { bearer_token }),
    {
        Self(InnerToken::Bearer { bearer_token })
    }

    /// The word that stands before the secret in the header.
    pub open spec fn spec_scheme(self) -> Seq<char> {
        match self.0 {
            InnerToken::Bot { .. } => "Bot"@,
            InnerToken::Bearer { .. } => "Bearer"@,
        }
    }

    /// The secret.
    pub open spec fn spec_secret(self) -> Seq<char> {
        match self.0 {
            InnerToken::Bot { bot_token } => bot_token@,
            InnerToken::Bearer { bearer_token } => bearer_token@,
        }
    }

    /// The number of bytes that the secret takes.
    pub open spec fn spec_secret_bytes(self) -> nat {
        match self.0 {
            InnerToken::Bot { bot_token } => vstd::utf8::encode_utf8(bot_token@).len(),
            InnerToken::Bearer { bearer_token } => vstd::utf8::encode_utf8(bearer_token@).len(),
        }
    }

    /// The value of the header that authorizes a request: the kind of the
    /// token, a space, and the secret.
    pub fn to_header_text(&self) -> (r: String)
        ensures
            r@ == self.spec_scheme() + " "@ + self.spec_secret(),
    {
        let (kind, token) = match &self.0 {
            InnerToken::Bot { bot_token } => ("Bot", bot_token),
            InnerToken::Bearer { bearer_token } => ("Bearer", bearer_token),
        };
        let mut text = String::from_str(kind);
        text.append(" ");
        text.append(token.as_str());
        text
    }

    /// The token as it may be shown: its kind, and an asterisk for every
    /// byte of the secret.
    pub fn obscured(&self) -> (r: String)
        ensures
            r@ == self.spec_scheme() + "("@ + stars(self.spec_secret_bytes()) + ")"@,
    {
        let (kind, token) = match &self.0 {
            InnerToken::Bot { bot_token } => ("Bot", bot_token),
            InnerToken::Bearer { bearer_token } => ("Bearer", bearer_token),
        };
        let mut text = String::from_str(kind);
        text.append("(");
        text.append(obscure(token.as_str()).as_str());
        text.append(")");
        text
    }
}

/// The name that requests are made under unless another is given.
pub const DEFAULT_NAME: &'static str = "RustDiscord2Bot";

/// The address that stands in the announcement unless another is given.
pub const DEFAULT_URL: &'static str = "";

/// The version that stands in the announcement unless another is given.
pub const DEFAULT_VERSION: &'static str = "0.1.0";

/// The root of the interface unless another is given.
pub const DEFAULT_API_ROOT: &'static str = "https://discord.com/api/v9/";

/// Who asks, where, and under which name.
pub struct Config {
    pub token: Token,
    pub name: String,
    pub url: String,
    pub version: String,
    pub api_root: String,
}

impl Config {
    /// The settings for the token `token`, with the name, address, version
    /// and root that are used unless others are given.
    pub fn new(token: Token) -> (r: Self)
        ensures
            r.token == token,
            r.name@ == DEFAULT_NAME@,
            r.url@ == DEFAULT_URL@,
            r.version@ == DEFAULT_VERSION@,
            r.api_root@ == DEFAULT_API_ROOT@,
    {
        Config {
            token,
            name: DEFAULT_NAME.to_owned(),
            url: DEFAULT_URL.to_owned(),
            version: DEFAULT_VERSION.to_owned(),
            api_root: DEFAULT_API_ROOT.to_owned(),
        }
    }

    /// The same with the name `name`.
    pub fn name(self, name: String) -> (r: Self)
        ensures
            r == (Config { name, ..self }),
    {
        Config { name, ..self }
    }

    /// The same with the address `url`.
    pub fn url(self, url: String) -> (r: Self)
        ensures
            r == (Config { url, ..self }),
    {
        Config { url, ..self }
    }

    /// The same with the version `version`.
    pub fn version(self, version: String) -> (r: Self)
        ensures
            r == (Config { version, ..self }),
    {
        Config { version, ..self }
    }

    /// The same with the root `api_root`.
    pub fn api_root(self, api_root: String) -> (r: Self)
        ensures
            r == (Config { api_root, ..self }),
    {
        Config { api_root, ..self }
    }

    /// How the one who asks is announced: the name, then in brackets the
    /// address and the version.
    pub fn user_agent(&self) -> (r: String)
        ensures
            r@ == self.name@ + " ("@ + self.url@ + ", "@ + self.version@ + ")"@,
    {
        let mut text = self.name.clone();
        text.append(" (");
        text.append(self.url.as_str());
        text.append(", ");
        text.append(self.version.as_str());
        text.append(")");
        text
    }
}

} // verus!
