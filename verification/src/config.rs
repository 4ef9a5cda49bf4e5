//! The site's settings, fixed when the process starts.

use vstd::prelude::*;
use crate::text::{parse_unsigned, parsed_unsigned};

verus! {

/// The address the server binds where none is set.
pub const DEFAULT_BIND: &'static str = "127.0.0.1:8180";

/// The width asked for in the URL of a new photo where none is set.
pub const DEFAULT_WIDTH: u32 = 1000;

/// The height asked for in the URL of a new photo where none is set.
pub const DEFAULT_HEIGHT: u32 = 0;

/// The settings of one site.
pub struct SiteConfig {
    bind: String,
    media_url: String,
    s3_bucket: String,
    oauth2_auth_endpoint: String,
    oauth2_introspect_endpoint: String,
    oauth2_client_id: String,
    oauth2_client_secret: String,
    allowed_username: String,
    default_width: u32,
    default_height: u32,
}

/// What a `SiteConfig` holds, as plain text and numbers.
pub struct SiteConfigView {
    pub bind: Seq<char>,
    pub media_url: Seq<char>,
    pub s3_bucket: Seq<char>,
    pub oauth2_auth_endpoint: Seq<char>,
    pub oauth2_introspect_endpoint: Seq<char>,
    pub oauth2_client_id: Seq<char>,
    pub oauth2_client_secret: Seq<char>,
    pub allowed_username: Seq<char>,
    pub default_width: u32,
    pub default_height: u32,
}

impl View for SiteConfig {
    type V = SiteConfigView;

    closed spec fn view(&self) -> SiteConfigView {
        SiteConfigView {
            bind: self.bind@,
            media_url: self.media_url@,
            s3_bucket: self.s3_bucket@,
            oauth2_auth_endpoint: self.oauth2_auth_endpoint@,
            oauth2_introspect_endpoint: self.oauth2_introspect_endpoint@,
            oauth2_client_id: self.oauth2_client_id@,
            oauth2_client_secret: self.oauth2_client_secret@,
            allowed_username: self.allowed_username@,
            default_width: self.default_width,
            default_height: self.default_height,
        }
    }
}

/// The settings as they were found, each one absent or present as text.
pub struct Settings {
    pub bind: Option<String>,
    pub s3_bucket: Option<String>,
    pub media_url: Option<String>,
    pub oauth2_auth_endpoint: Option<String>,
    pub oauth2_introspect_endpoint: Option<String>,
    pub oauth2_client_id: Option<String>,
    pub oauth2_client_secret: Option<String>,
    pub allowed_username: Option<String>,
    pub default_width: Option<String>,
    pub default_height: Option<String>,
}

/// A setting that a site cannot do without.
#[derive(Clone, Copy, Debug, PartialEq, Eq, Structural)]
pub enum Required {
    S3Bucket,
    MediaUrl,
    Oauth2AuthEndpoint,
    Oauth2IntrospectEndpoint,
    Oauth2ClientId,
    Oauth2ClientSecret,
    AllowedUsername,
}

impl Required {
    /// The name under which the setting is looked up.
    pub open spec fn spec_name(self) -> Seq<char> {
        match self {
            Required::S3Bucket => "S3_BUCKET"@,
            Required::MediaUrl => "MEDIA_URL"@,
            Required::Oauth2AuthEndpoint => "OAUTH2_AUTH_ENDPOINT"@,
            Required::Oauth2IntrospectEndpoint => "OAUTH2_INTROSPECT_ENDPOINT"@,
            Required::Oauth2ClientId => "OAUTH2_CLIENT_ID"@,
            Required::Oauth2ClientSecret => "OAUTH2_CLIENT_SECRET"@,
            Required::AllowedUsername => "ALLOWED_USERNAME"@,
        }
    }

    /// The name under which the setting is looked up.
    pub fn name(self) -> (r: &'static str)
        ensures
            r@ == self.spec_name(),
    {
        match self {
            Required::S3Bucket => "S3_BUCKET",
            Required::MediaUrl => "MEDIA_URL",
            Required::Oauth2AuthEndpoint => "OAUTH2_AUTH_ENDPOINT",
            Required::Oauth2IntrospectEndpoint => "OAUTH2_INTROSPECT_ENDPOINT",
            Required::Oauth2ClientId => "OAUTH2_CLIENT_ID",
            Required::Oauth2ClientSecret => "OAUTH2_CLIENT_SECRET",
            Required::AllowedUsername => "ALLOWED_USERNAME",
        }
    }
}

/// The number that a size setting gives: what its text parses to, and
/// `fallback` where it is absent or does not parse.
pub open spec fn size_setting(s: Option<String>, fallback: u32) -> u32 {
    match s {
        Some(t) => match parsed_unsigned(t@) {
            Some(n) => n,
            None => fallback,
        },
        None => fallback,
    }
}

/// The first required setting that `s` lacks, in the order in which they are
/// looked up.
pub open spec fn first_missing(s: Settings) -> Option<Required> {
    if s.s3_bucket is None {
        Some(Required::S3Bucket)
    } else if s.media_url is None {
        Some(Required::MediaUrl)
    } else if s.oauth2_auth_endpoint is None {
        Some(Required::Oauth2AuthEndpoint)
    } else if s.oauth2_introspect_endpoint is None {
        Some(Required::Oauth2IntrospectEndpoint)
    } else if s.oauth2_client_id is None {
        Some(Required::Oauth2ClientId)
    } else if s.oauth2_client_secret is None {
        Some(Required::Oauth2ClientSecret)
    } else if s.allowed_username is None {
        Some(Required::AllowedUsername)
    } else {
        None
    }
}

/// The configuration that complete settings resolve to.
pub open spec fn resolved(s: Settings) -> SiteConfigView {
    SiteConfigView {
        bind: match s.bind {
            Some(b) => b@,
            None => DEFAULT_BIND@,
        },
        media_url: s.media_url->0@,
        s3_bucket: s.s3_bucket->0@,
        oauth2_auth_endpoint: s.oauth2_auth_endpoint->0@,
        oauth2_introspect_endpoint: s.oauth2_introspect_endpoint->0@,
        oauth2_client_id: s.oauth2_client_id->0@,
        oauth2_client_secret: s.oauth2_client_secret->0@,
        allowed_username: s.allowed_username->0@,
        default_width: size_setting(s.default_width, DEFAULT_WIDTH),
        default_height: size_setting(s.default_height, DEFAULT_HEIGHT),
    }
}

fn size_of(s: &Option<String>, fallback: u32) -> (r: u32)
    ensures
        r == size_setting(*s, fallback),
{
    match s {
        Some(t) => match parse_unsigned(t.as_str()) {
            Some(n) => n,
            None => fallback,
        },
        None => fallback,
    }
}

impl SiteConfig {
    /// A configuration that holds the given values.
    pub fn new(
        bind: String,
        media_url: String,
        s3_bucket: String,
        oauth2_auth_endpoint: String,
        oauth2_introspect_endpoint: String,
        oauth2_client_id: String,
        oauth2_client_secret: String,
        allowed_username: String,
        default_width: u32,
        default_height: u32,
    ) -> (r: SiteConfig)
        ensures
            r@ == (SiteConfigView {
                bind: bind@,
                media_url: media_url@,
                s3_bucket: s3_bucket@,
                oauth2_auth_endpoint: oauth2_auth_endpoint@,
                oauth2_introspect_endpoint: oauth2_introspect_endpoint@,
                oauth2_client_id: oauth2_client_id@,
                oauth2_client_secret: oauth2_client_secret@,
                allowed_username: allowed_username@,
                default_width,
                default_height,
            }),
    {
        SiteConfig {
            bind,
            media_url,
            s3_bucket,
            oauth2_auth_endpoint,
            oauth2_introspect_endpoint,
            oauth2_client_id,
            oauth2_client_secret,
            allowed_username,
            default_width,
            default_height,
        }
    }

    /// Resolves the settings found at start-up. The bind address and the two
    /// sizes fall back to their defaults; any other setting that is absent
    /// is reported, the first one in the order of lookup.
    pub fn from_settings(settings: Settings) -> (r: Result<SiteConfig, Required>)
        ensures
            match r {
                Ok(c) => first_missing(settings) is None && c@ == resolved(settings),
                Err(e) => first_missing(settings) == Some(e),
            },
    {
        let default_width = size_of(&settings.default_width, DEFAULT_WIDTH);
        let default_height = size_of(&settings.default_height, DEFAULT_HEIGHT);
        let bind = match settings.bind {
            Some(b) => b,
            None => DEFAULT_BIND.to_owned(),
        };
        let s3_bucket = match settings.s3_bucket {
            Some(v) => v,
            None => { return Err(Required::S3Bucket); },
        };
        let media_url = match settings.media_url {
            Some(v) => v,
            None => { return Err(Required::MediaUrl); },
        };
        let oauth2_auth_endpoint = match settings.oauth2_auth_endpoint {
            Some(v) => v,
            None => { return Err(Required::Oauth2AuthEndpoint); },
        };
        let oauth2_introspect_endpoint = match settings.oauth2_introspect_endpoint {
            Some(v) => v,
            None => { return Err(Required::Oauth2IntrospectEndpoint); },
        };
        let oauth2_client_id = match settings.oauth2_client_id {
            Some(v) => v,
            None => { return Err(Required::Oauth2ClientId); },
        };
        let oauth2_client_secret = match settings.oauth2_client_secret {
            Some(v) => v,
            None => { return Err(Required::Oauth2ClientSecret); },
        };
        let allowed_username = match settings.allowed_username {
            Some(v) => v,
            None => { return Err(Required::AllowedUsername); },
        };
        Ok(SiteConfig {
            bind,
            media_url,
            s3_bucket,
            oauth2_auth_endpoint,
            oauth2_introspect_endpoint,
            oauth2_client_id,
            oauth2_client_secret,
            allowed_username,
            default_width,
            default_height,
        })
    }

    /// The address the server binds.
    pub fn bind(&self) -> (r: &str)
        ensures
            r@ == self@.bind,
    {
        self.bind.as_str()
    }

    /// Base URL for serving files.
    pub fn media_url(&self) -> (r: &str)
        ensures
            r@ == self@.media_url,
    {
        self.media_url.as_str()
    }

    /// Where users are sent to authorize a client.
    pub fn oauth2_auth_endpoint(&self) -> (r: &str)
        ensures
            r@ == self@.oauth2_auth_endpoint,
    {
        self.oauth2_auth_endpoint.as_str()
    }

    /// Where bearer credentials are verified.
    pub fn oauth2_introspect_endpoint(&self) -> (r: &str)
        ensures
            r@ == self@.oauth2_introspect_endpoint,
    {
        self.oauth2_introspect_endpoint.as_str()
    }

    /// The identifier under which this site talks to the verifier.
    pub fn oauth2_client_id(&self) -> (r: &str)
        ensures
            r@ == self@.oauth2_client_id,
    {
        self.oauth2_client_id.as_str()
    }

    /// The secret that goes with `oauth2_client_id`.
    pub fn oauth2_client_secret(&self) -> (r: &str)
        ensures
            r@ == self@.oauth2_client_secret,
    {
        self.oauth2_client_secret.as_str()
    }

    /// The username that is allowed to upload to this endpoint.
    pub fn allowed_username(&self) -> (r: &str)
        ensures
            r@ == self@.allowed_username,
    {
        self.allowed_username.as_str()
    }

    /// The bucket that objects are stored in.
    pub fn s3_bucket(&self) -> (r: &str)
        ensures
            r@ == self@.s3_bucket,
    {
        self.s3_bucket.as_str()
    }

    /// The width asked for in the URL of a new photo.
    pub fn default_width(&self) -> (r: u32)
        ensures
            r == self@.default_width,
    {
        self.default_width
    }

    /// The height asked for in the URL of a new photo.
    pub fn default_height(&self) -> (r: u32)
        ensures
            r == self@.default_height,
    {
        self.default_height
    }
}

} // verus!
