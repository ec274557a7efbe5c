//! Statement builder for engine credential secrets: a `CREATE OR REPLACE
//! SECRET name (field, ...)` statement assembled from user mapping options.

use crate::options::{
    join_args, render_clauses, rendered_clauses, rule, rules_view, spec_args, OptionError,
    OptionRule, RuleV, TableOptions, ValueStyle,
};
use vstd::prelude::*;

verus! {

/// The credential fields recognized in a user mapping.
#[derive(PartialEq, Eq, Structural, Debug)]
pub enum UserMappingOptions {
    // Universal
    Type,
    Provider,
    Scope,
    Chain,
    // S3/GCS/R2
    KeyId,
    Secret,
    Region,
    SessionToken,
    Endpoint,
    UrlStyle,
    UseSsl,
    UrlCompatibilityMode,
    AccountId,
    // Azure
    ConnectionString,
    AccountName,
    TenantId,
    ClientId,
    ClientSecret,
    ClientCertificatePath,
    HttpProxy,
    ProxyUserName,
    ProxyPassword,
}

/// The option's name as written in user mapping options.
pub open spec fn spec_user_mapping_option_name(o: UserMappingOptions) -> Seq<char> {
    match o {
        UserMappingOptions::Type => "type"@,
        UserMappingOptions::Provider => "provider"@,
        UserMappingOptions::Scope => "scope"@,
        UserMappingOptions::Chain => "chain"@,
        UserMappingOptions::KeyId => "key_id"@,
        UserMappingOptions::Secret => "secret"@,
        UserMappingOptions::Region => "region"@,
        UserMappingOptions::SessionToken => "session_token"@,
        UserMappingOptions::Endpoint => "endpoint"@,
        UserMappingOptions::UrlStyle => "url_style"@,
        UserMappingOptions::UseSsl => "use_ssl"@,
        UserMappingOptions::UrlCompatibilityMode => "url_compatibility_mode"@,
        UserMappingOptions::AccountId => "account_id"@,
        UserMappingOptions::ConnectionString => "connection_string"@,
        UserMappingOptions::AccountName => "account_name"@,
        UserMappingOptions::TenantId => "tenant_id"@,
        UserMappingOptions::ClientId => "client_id"@,
        UserMappingOptions::ClientSecret => "client_secret"@,
        UserMappingOptions::ClientCertificatePath => "client_certificate_path"@,
        UserMappingOptions::HttpProxy => "http_proxy"@,
        UserMappingOptions::ProxyUserName => "proxy_user_name"@,
        UserMappingOptions::ProxyPassword => "proxy_password"@,
    }
}

impl UserMappingOptions {
    /// The option's name as written in user mapping options.
    pub fn as_str(&self) -> (r: &'static str)
        ensures
            r@ == spec_user_mapping_option_name(*self),
    {
        match self {
            UserMappingOptions::Type => "type",
            UserMappingOptions::Provider => "provider",
            UserMappingOptions::Scope => "scope",
            UserMappingOptions::Chain => "chain",
            UserMappingOptions::KeyId => "key_id",
            UserMappingOptions::Secret => "secret",
            UserMappingOptions::Region => "region",
            UserMappingOptions::SessionToken => "session_token",
            UserMappingOptions::Endpoint => "endpoint",
            UserMappingOptions::UrlStyle => "url_style",
            UserMappingOptions::UseSsl => "use_ssl",
            UserMappingOptions::UrlCompatibilityMode => "url_compatibility_mode",
            UserMappingOptions::AccountId => "account_id",
            UserMappingOptions::ConnectionString => "connection_string",
            UserMappingOptions::AccountName => "account_name",
            UserMappingOptions::TenantId => "tenant_id",
            UserMappingOptions::ClientId => "client_id",
            UserMappingOptions::ClientSecret => "client_secret",
            UserMappingOptions::ClientCertificatePath => "client_certificate_path",
            UserMappingOptions::HttpProxy => "http_proxy",
            UserMappingOptions::ProxyUserName => "proxy_user_name",
            UserMappingOptions::ProxyPassword => "proxy_password",
        }
    }

    /// Whether the field must be present: only `type` is required.
    pub fn is_required(&self) -> (r: bool)
        ensures
            r == (*self is Type),
    {
        match self {
            UserMappingOptions::Type => true,
            _ => false,
        }
    }
}

/// The rendering rules of secret fields, in output order: each present
/// field becomes `KEYWORD value`, the sensitive ones single-quoted.
pub open spec fn spec_secret_rules() -> Seq<RuleV> {
    seq![
        RuleV { key: "type"@, label: "TYPE"@, eq: " "@, style: ValueStyle::Bare },
        RuleV { key: "provider"@, label: "PROVIDER"@, eq: " "@, style: ValueStyle::Bare },
        RuleV { key: "scope"@, label: "SCOPE"@, eq: " "@, style: ValueStyle::Bare },
        RuleV { key: "chain"@, label: "CHAIN"@, eq: " "@, style: ValueStyle::Quoted },
        RuleV { key: "key_id"@, label: "KEY_ID"@, eq: " "@, style: ValueStyle::Quoted },
        RuleV { key: "secret"@, label: "SECRET"@, eq: " "@, style: ValueStyle::Quoted },
        RuleV { key: "region"@, label: "REGION"@, eq: " "@, style: ValueStyle::Quoted },
        RuleV {
            key: "session_token"@,
            label: "SESSION_TOKEN"@,
            eq: " "@,
            style: ValueStyle::Quoted,
        },
        RuleV { key: "endpoint"@, label: "ENDPOINT"@, eq: " "@, style: ValueStyle::Quoted },
        RuleV { key: "url_style"@, label: "URL_STYLE"@, eq: " "@, style: ValueStyle::Quoted },
        RuleV { key: "use_ssl"@, label: "USE_SSL"@, eq: " "@, style: ValueStyle::Bare },
        RuleV {
            key: "url_compatibility_mode"@,
            label: "URL_COMPATIBILITY_MODE"@,
            eq: " "@,
            style: ValueStyle::Bare,
        },
        RuleV { key: "account_id"@, label: "ACCOUNT_ID"@, eq: " "@, style: ValueStyle::Quoted },
        RuleV {
            key: "connection_string"@,
            label: "CONNECTION_STRING"@,
            eq: " "@,
            style: ValueStyle::Quoted,
        },
        RuleV { key: "account_name"@, label: "ACCOUNT_NAME"@, eq: " "@, style: ValueStyle::Quoted },
        RuleV { key: "tenant_id"@, label: "TENANT_ID"@, eq: " "@, style: ValueStyle::Quoted },
        RuleV { key: "client_id"@, label: "CLIENT_ID"@, eq: " "@, style: ValueStyle::Quoted },
        RuleV {
            key: "client_secret"@,
            label: "CLIENT_SECRET"@,
            eq: " "@,
            style: ValueStyle::Quoted,
        },
        RuleV {
            key: "client_certificate_path"@,
            label: "CLIENT_CERTIFICATE_PATH"@,
            eq: " "@,
            style: ValueStyle::Quoted,
        },
        RuleV { key: "http_proxy"@, label: "HTTP_PROXY"@, eq: " "@, style: ValueStyle::Quoted },
        RuleV {
            key: "proxy_user_name"@,
            label: "PROXY_USER_NAME"@,
            eq: " "@,
            style: ValueStyle::Quoted,
        },
        RuleV {
            key: "proxy_password"@,
            label: "PROXY_PASSWORD"@,
            eq: " "@,
            style: ValueStyle::Quoted,
        },
    ]
}

fn secret_rules() -> (r: Vec<OptionRule>)
    ensures
        rules_view(r@) == spec_secret_rules(),
{
    let mut r: Vec<OptionRule> = Vec::new();
    r.push(rule("type", "TYPE", " ", ValueStyle::Bare));
    r.push(rule("provider", "PROVIDER", " ", ValueStyle::Bare));
    r.push(rule("scope", "SCOPE", " ", ValueStyle::Bare));
    r.push(rule("chain", "CHAIN", " ", ValueStyle::Quoted));
    r.push(rule("key_id", "KEY_ID", " ", ValueStyle::Quoted));
    r.push(rule("secret", "SECRET", " ", ValueStyle::Quoted));
    r.push(rule("region", "REGION", " ", ValueStyle::Quoted));
    r.push(rule("session_token", "SESSION_TOKEN", " ", ValueStyle::Quoted));
    r.push(rule("endpoint", "ENDPOINT", " ", ValueStyle::Quoted));
    r.push(rule("url_style", "URL_STYLE", " ", ValueStyle::Quoted));
    r.push(rule("use_ssl", "USE_SSL", " ", ValueStyle::Bare));
    r.push(rule("url_compatibility_mode", "URL_COMPATIBILITY_MODE", " ", ValueStyle::Bare));
    r.push(rule("account_id", "ACCOUNT_ID", " ", ValueStyle::Quoted));
    r.push(rule("connection_string", "CONNECTION_STRING", " ", ValueStyle::Quoted));
    r.push(rule("account_name", "ACCOUNT_NAME", " ", ValueStyle::Quoted));
    r.push(rule("tenant_id", "TENANT_ID", " ", ValueStyle::Quoted));
    r.push(rule("client_id", "CLIENT_ID", " ", ValueStyle::Quoted));
    r.push(rule("client_secret", "CLIENT_SECRET", " ", ValueStyle::Quoted));
    r.push(rule("client_certificate_path", "CLIENT_CERTIFICATE_PATH", " ", ValueStyle::Quoted));
    r.push(rule("http_proxy", "HTTP_PROXY", " ", ValueStyle::Quoted));
    r.push(rule("proxy_user_name", "PROXY_USER_NAME", " ", ValueStyle::Quoted));
    r.push(rule("proxy_password", "PROXY_PASSWORD", " ", ValueStyle::Quoted));
    proof {
        assert(rules_view(r@) =~~= spec_secret_rules());
    }
    r
}

/// The full `CREATE OR REPLACE SECRET` statement.
pub open spec fn spec_secret_statement(name: Seq<char>, m: Map<Seq<char>, Seq<char>>) -> Seq<
    char,
> {
    "CREATE OR REPLACE SECRET "@ + name + " ("@ + spec_args(
        rendered_clauses(spec_secret_rules(), m),
    ) + ")"@
}

/// Builds the statement that registers a named credential secret with the
/// embedded engine. Fails exactly when the user mapping is empty or its
/// required `type` field is absent.
pub fn create_secret(secret_name: &str, user_mapping_options: &TableOptions) -> (r: Result<
    String,
    OptionError,
>)
    requires
        user_mapping_options.inv(),
    ensures
        match r {
            Ok(s) => {
                &&& user_mapping_options@.contains_key("type"@)
                &&& s@ == spec_secret_statement(secret_name@, user_mapping_options@)
            },
            Err(e) => match e {
                OptionError::EmptyUserMapping => user_mapping_options@ === Map::empty(),
                OptionError::MissingSecretType => user_mapping_options@ !== Map::empty()
                    && !user_mapping_options@.contains_key("type"@),
                _ => false,
            },
        },
{
    if user_mapping_options.is_empty() {
        return Err(OptionError::EmptyUserMapping);
    }
    if !user_mapping_options.contains("type") {
        return Err(OptionError::MissingSecretType);
    }
    let rules = secret_rules();
    let clauses = render_clauses(&rules, user_mapping_options);
    let args = join_args(&clauses);
    let mut out = String::from_str("CREATE OR REPLACE SECRET ");
    out.append(secret_name);
    out.append(" (");
    out.append(args.as_str());
    out.append(")");
    Ok(out)
}

} // verus!
