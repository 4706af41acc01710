//! The resolution pass: which profile and region are in force, whether
//! credentials stand behind them, how long those last, and whether anything
//! is shown at all.
//!
//! The pass reads nothing itself: the caller hands in the environment, the
//! time, and each file that the pass asks for.
//!
//! Every function that may need a file returns a `Result`.  `Err` carries the
//! request for a file that the cache does not hold yet; after the caller has
//! handed the file's text to the cache, the same call gives the answer, or
//! the request for the next file.
use vstd::prelude::*;
use vstd::string::StringExecFns;
use ini::Ini;
use ini::Properties;
use crate::config::AwsConfig;
use crate::config::AwsConfigView;
use crate::context::Context;
use crate::context::ContextView;
use crate::digest::cache_key;
use crate::digest::sso_cache_key;
use crate::files::CacheView;
use crate::files::FileCache;
use crate::files::FileKind;
use crate::files::FileLocation;
use crate::files::FileRequest;
use crate::files::LocationView;
use crate::files::RequestView;
use crate::files::Slot;
use crate::files::or_request;
use crate::ini_file::ini_section;
use crate::ini_file::ini_sections;
use crate::ini_file::section_contains_key;
use crate::ini_file::section_entries;
use crate::ini_file::section_get;
use crate::json::document_member;
use crate::json::string_member;
use crate::table::Table;
use crate::text::Entries;
use crate::text::Sections;
use crate::text::first_known;
use crate::text::lookup;
use crate::text::texts_of;
use crate::text::view_of;
use crate::time::is_timestamp;
use crate::time::parse_rfc3339;
use crate::time::remaining_seconds;
use crate::time::render_time;
use crate::time::rendered_time;
use crate::time::rfc3339_timestamp;

verus! {

/// The name of a profile.
pub type Profile = String;

/// The name of a region.
pub type Region = String;

/// The variables that may name the profile, the most binding first.
pub open spec fn profile_variables() -> Seq<Seq<char>> {
    seq!["AWSU_PROFILE"@, "AWS_VAULT"@, "AWSUME_PROFILE"@, "AWS_PROFILE"@, "AWS_SSO_PROFILE"@]
}

/// The variables that may name the region, the most binding first.
pub open spec fn region_variables() -> Seq<Seq<char>> {
    seq!["AWS_REGION"@, "AWS_DEFAULT_REGION"@]
}

/// A value that is present and not empty.
pub open spec fn nonempty(value: Option<Seq<char>>) -> Option<Seq<char>> {
    match value {
        Some(v) => if v.len() > 0 {
            Some(v)
        } else {
            None
        },
        None => None,
    }
}

/// The place of a file: the path that the environment gives, or else the
/// file's usual place below the home directory, if that is known.
pub open spec fn location_of(
    path: Option<Seq<char>>,
    home: Option<Seq<char>>,
    relative: Seq<char>,
) -> Option<LocationView> {
    match path {
        Some(p) => Some(LocationView::Path(p)),
        None => match home {
            Some(h) => Some(LocationView::UnderHome { home: h, relative }),
            None => None,
        },
    }
}

/// The place of the credentials file: the value of
/// `AWS_SHARED_CREDENTIALS_FILE` or else of `AWS_CREDENTIALS_FILE`, where one
/// is set and not empty, and else `.aws/credentials` below the home
/// directory.
pub open spec fn credentials_file_location(context: ContextView) -> Option<LocationView> {
    let path = match nonempty(lookup(context.env, "AWS_SHARED_CREDENTIALS_FILE"@)) {
        Some(p) => Some(p),
        None => nonempty(lookup(context.env, "AWS_CREDENTIALS_FILE"@)),
    };
    location_of(path, context.home, ".aws/credentials"@)
}

/// The place of the configuration file: the value of `AWS_CONFIG_FILE`,
/// where it is set and not empty, and else `.aws/config` below the home
/// directory.
pub open spec fn config_file_location(context: ContextView) -> Option<LocationView> {
    location_of(nonempty(lookup(context.env, "AWS_CONFIG_FILE"@)), context.home, ".aws/config"@)
}

/// The value of a variable that is set and not empty.
fn get_nonempty_env(context: &Context, name: &str) -> (value: Option<String>)
    ensures
        view_of(value) == nonempty(lookup(context@.env, name@)),
{
    match context.get_env(name) {
        Some(v) => if v.as_str().is_empty() {
            None
        } else {
            Some(v)
        },
        None => None,
    }
}

/// The place of a file, from the path that the environment gave for it.
fn locate(context: &Context, path: Option<String>, relative: &str) -> (location: Option<
    FileLocation,
>)
    ensures
        view_of(location) == location_of(view_of(path), context@.home, relative@),
{
    match path {
        Some(p) => Some(FileLocation::Path(p)),
        None => match context.get_home() {
            Some(home) => Some(FileLocation::UnderHome { home, relative: relative.to_owned() }),
            None => None,
        },
    }
}

/// Where the credentials file lies, if that can be told.
pub fn get_credentials_file_path(context: &Context) -> (location: Option<FileLocation>)
    ensures
        view_of(location) == credentials_file_location(context@),
{
    let path = match get_nonempty_env(context, "AWS_SHARED_CREDENTIALS_FILE") {
        Some(p) => Some(p),
        None => get_nonempty_env(context, "AWS_CREDENTIALS_FILE"),
    };
    locate(context, path, ".aws/credentials")
}

/// Where the configuration file lies, if that can be told.
pub fn get_config_file_path(context: &Context) -> (location: Option<FileLocation>)
    ensures
        view_of(location) == config_file_location(context@),
{
    locate(context, get_nonempty_env(context, "AWS_CONFIG_FILE"), ".aws/config")
}

/// What one who asks for a file gets: what the file's slot holds, once it
/// is filled, and unchanged from then on; before that, the request to load
/// the file from its place, or nothing where the file has no place.
pub open spec fn cached_file(
    slot: Slot<Sections>,
    kind: FileKind,
    location: Option<LocationView>,
) -> Result<Option<Sections>, RequestView> {
    match slot {
        Slot::Loaded(file) => Ok(file),
        Slot::Uninitialized => match location {
            Some(l) => Err(RequestView { kind, location: l }),
            None => Ok(None),
        },
    }
}

/// The configuration file of the pass.
pub open spec fn config_file(context: ContextView, cache: CacheView) -> Result<
    Option<Sections>,
    RequestView,
> {
    cached_file(cache.config, FileKind::Config, config_file_location(context))
}

/// The credentials file of the pass.
pub open spec fn credentials_file(context: ContextView, cache: CacheView) -> Result<
    Option<Sections>,
    RequestView,
> {
    cached_file(cache.credentials, FileKind::Credentials, credentials_file_location(context))
}

/// A parsed file or the request for it, as contracts see it.
pub open spec fn sections_or_request(file: Result<Option<&Ini>, FileRequest>) -> Result<
    Option<Sections>,
    RequestView,
> {
    match file {
        Ok(Some(f)) => Ok(Some(ini_sections(*f))),
        Ok(None) => Ok(None),
        Err(request) => Err(request@),
    }
}

/// The configuration file, from the cache.
pub fn get_config<'a>(context: &Context, cache: &'a FileCache) -> (file: Result<
    Option<&'a Ini>,
    FileRequest,
>)
    ensures
        sections_or_request(file) == config_file(context@, cache@),
{
    match cache.config() {
        Slot::Loaded(Some(f)) => Ok(Some(f)),
        Slot::Loaded(None) => Ok(None),
        Slot::Uninitialized => match get_config_file_path(context) {
            Some(location) => Err(FileRequest { kind: FileKind::Config, location }),
            None => Ok(None),
        },
    }
}

/// The credentials file, from the cache.
pub fn get_creds<'a>(context: &Context, cache: &'a FileCache) -> (file: Result<
    Option<&'a Ini>,
    FileRequest,
>)
    ensures
        sections_or_request(file) == credentials_file(context@, cache@),
{
    match cache.credentials() {
        Slot::Loaded(Some(f)) => Ok(Some(f)),
        Slot::Loaded(None) => Ok(None),
        Slot::Uninitialized => match get_credentials_file_path(context) {
            Some(location) => Err(FileRequest { kind: FileKind::Credentials, location }),
            None => Ok(None),
        },
    }
}

/// The name of a profile's section in the configuration file: `default` for
/// the default profile, `profile NAME` for the profile `NAME`.
pub open spec fn config_section_name(profile: Option<Seq<char>>) -> Seq<char> {
    match profile {
        Some(p) => "profile "@ + p,
        None => "default"@,
    }
}

/// The name of a profile's section in the credentials file: `default` for
/// the default profile, `NAME` for the profile `NAME`.
pub open spec fn credentials_section_name(profile: Option<Seq<char>>) -> Seq<char> {
    match profile {
        Some(p) => p,
        None => "default"@,
    }
}

/// The section of a name, if the file has it.
pub open spec fn section_named(file: Sections, name: Seq<char>) -> Option<Entries> {
    if file.contains_key(name) {
        Some(file[name])
    } else {
        None
    }
}

/// A profile's section in the configuration file.
pub open spec fn config_section(file: Sections, profile: Option<Seq<char>>) -> Option<Entries> {
    section_named(file, config_section_name(profile))
}

/// A profile's section in the credentials file.
pub open spec fn credentials_section(file: Sections, profile: Option<Seq<char>>) -> Option<
    Entries,
> {
    section_named(file, credentials_section_name(profile))
}

/// The entries of a section that may be absent.
pub open spec fn entries_of(section: Option<&Properties>) -> Option<Entries> {
    match section {
        Some(s) => Some(section_entries(*s)),
        None => None,
    }
}

/// The section of a profile in the configuration file.
pub fn get_profile_config<'a>(config: &'a Ini, profile: Option<&Profile>) -> (section: Option<
    &'a Properties,
>)
    ensures
        entries_of(section) == config_section(ini_sections(*config), view_of(profile)),
{
    match profile {
        Some(p) => {
            let mut name = String::from_str("profile ");
            name.append(p.as_str());
            ini_section(config, name.as_str())
        },
        None => ini_section(config, "default"),
    }
}

/// The section of a profile in the credentials file.
pub fn get_profile_creds<'a>(config: &'a Ini, profile: Option<&Profile>) -> (section: Option<
    &'a Properties,
>)
    ensures
        entries_of(section) == credentials_section(ini_sections(*config), view_of(profile)),
{
    match profile {
        Some(p) => ini_section(config, p.as_str()),
        None => ini_section(config, "default"),
    }
}

/// The region that the configuration file gives for a profile.
pub open spec fn region_from_config(
    context: ContextView,
    profile: Option<Seq<char>>,
    cache: CacheView,
) -> Result<Option<Seq<char>>, RequestView> {
    match config_file(context, cache) {
        Err(request) => Err(request),
        Ok(None) => Ok(None),
        Ok(Some(file)) => match config_section(file, profile) {
            Some(section) => Ok(lookup(section, "region"@)),
            None => Ok(None),
        },
    }
}

/// A text or the request that stands in its way, as contracts see it.
pub open spec fn text_or_request(text: Result<Option<String>, FileRequest>) -> Result<
    Option<Seq<char>>,
    RequestView,
> {
    match text {
        Ok(t) => Ok(view_of(t)),
        Err(request) => Err(request@),
    }
}

/// Looks the region of a profile up in the configuration file.
pub fn get_aws_region_from_config(
    context: &Context,
    aws_profile: &Option<Profile>,
    cache: &FileCache,
) -> (region: Result<Option<Region>, FileRequest>)
    ensures
        text_or_request(region) == region_from_config(context@, view_of(*aws_profile), cache@),
{
    let config = match get_config(context, cache)? {
        Some(c) => c,
        None => {
            return Ok(None);
        },
    };
    match get_profile_config(config, aws_profile.as_ref()) {
        Some(section) => match section_get(section, "region") {
            Some(region) => Ok(Some(region.to_owned())),
            None => Ok(None),
        },
        None => Ok(None),
    }
}

/// The profile and the region in force.  Each is taken from the environment
/// where a variable names it.  A region that no variable names is looked up in
/// the configuration file, in the section of the profile.
pub open spec fn profile_and_region(context: ContextView, cache: CacheView) -> Result<
    (Option<Seq<char>>, Option<Seq<char>>),
    RequestView,
> {
    let profile = first_known(context.env, profile_variables());
    match first_known(context.env, region_variables()) {
        Some(region) => Ok((profile, Some(region))),
        None => match region_from_config(context, profile, cache) {
            Ok(region) => Ok((profile, region)),
            Err(request) => Err(request),
        },
    }
}

/// A profile and a region or the request that stands in their way, as
/// contracts see them.
pub open spec fn pair_or_request(
    pair: Result<(Option<String>, Option<String>), FileRequest>,
) -> Result<(Option<Seq<char>>, Option<Seq<char>>), RequestView> {
    match pair {
        Ok((profile, region)) => Ok((view_of(profile), view_of(region))),
        Err(request) => Err(request@),
    }
}

/// Finds the profile and the region in force.
pub fn get_aws_profile_and_region(context: &Context, cache: &FileCache) -> (found: Result<
    (Option<Profile>, Option<Region>),
    FileRequest,
>)
    ensures
        pair_or_request(found) == profile_and_region(context@, cache@),
{
    let profile_env_vars = [
        "AWSU_PROFILE",
        "AWS_VAULT",
        "AWSUME_PROFILE",
        "AWS_PROFILE",
        "AWS_SSO_PROFILE",
    ];
    let region_env_vars = ["AWS_REGION", "AWS_DEFAULT_REGION"];
    assert(texts_of(profile_env_vars@) =~= profile_variables());
    assert(texts_of(region_env_vars@) =~= region_variables());
    let profile = context.first_env(&profile_env_vars);
    let region = context.first_env(&region_env_vars);
    match region {
        Some(r) => Ok((profile, Some(r))),
        None => {
            let region = get_aws_region_from_config(context, &profile, cache)?;
            Ok((profile, region))
        },
    }
}

/// The name to show for a name: what the aliases give for exactly this name,
/// and the name itself where they give nothing.  No name stays no name.
pub open spec fn aliased(name: Option<Seq<char>>, aliases: Entries) -> Option<Seq<char>> {
    match name {
        Some(n) => if aliases.contains_key(n) {
            Some(aliases[n])
        } else {
            Some(n)
        },
        None => None,
    }
}

/// Replaces a name by its alias, if it has one.
pub fn alias_name(name: Option<String>, aliases: &Table) -> (shown: Option<String>)
    ensures
        view_of(shown) == aliased(view_of(name), aliases@),
{
    match name {
        Some(n) => match aliases.get(n.as_str()) {
            Some(alias) => Some(alias.clone()),
            None => Some(n),
        },
        None => None,
    }
}

/// Whether a section of the configuration file speaks of a credential
/// process or of single sign-on.
pub open spec fn config_marker(section: Option<Entries>) -> bool {
    match section {
        Some(s) => s.contains_key("credential_process"@) || s.contains_key("sso_session"@)
            || s.contains_key("sso_start_url"@),
        None => false,
    }
}

/// Whether the sections of a profile speak of a credential process or of
/// single sign-on: yes where the section of the configuration file does; else
/// what the section of the credentials file says, and no answer where the
/// credentials file has no such section.
pub open spec fn marker_in(config: Option<Entries>, credentials: Option<Entries>) -> Option<bool> {
    if config_marker(config) {
        Some(true)
    } else {
        match credentials {
            Some(s) => Some(
                s.contains_key("credential_process"@) || s.contains_key("sso_start_url"@),
            ),
            None => None,
        }
    }
}

/// A profile's section in a configuration file that may be absent.
pub open spec fn config_section_in(file: Option<Sections>, profile: Option<Seq<char>>) -> Option<
    Entries,
> {
    match file {
        Some(f) => config_section(f, profile),
        None => None,
    }
}

/// A profile's section in a credentials file that may be absent.
pub open spec fn credentials_section_in(
    file: Option<Sections>,
    profile: Option<Seq<char>>,
) -> Option<Entries> {
    match file {
        Some(f) => credentials_section(f, profile),
        None => None,
    }
}

/// Whether a profile gets its credentials from a credential process or from
/// single sign-on, by its sections in the two files.  A file that is missing
/// has no section, and the other file is asked all the same.
pub open spec fn credential_process_or_sso(
    context: ContextView,
    profile: Option<Seq<char>>,
    cache: CacheView,
) -> Result<Option<bool>, RequestView> {
    match config_file(context, cache) {
        Err(request) => Err(request),
        Ok(config) => match credentials_file(context, cache) {
            Err(request) => Err(request),
            Ok(credentials) => Ok(
                marker_in(
                    config_section_in(config, profile),
                    credentials_section_in(credentials, profile),
                ),
            ),
        },
    }
}

/// Tells whether a profile gets its credentials from a credential process or
/// from single sign-on.
pub fn has_credential_process_or_sso(
    context: &Context,
    aws_profile: Option<&Profile>,
    cache: &FileCache,
) -> (found: Result<Option<bool>, FileRequest>)
    ensures
        or_request(found) == credential_process_or_sso(context@, view_of(aws_profile), cache@),
{
    let config = get_config(context, cache)?;
    let credentials = get_creds(context, cache)?;
    let config_section = match config {
        Some(c) => get_profile_config(c, aws_profile),
        None => None,
    };
    let in_config = match config_section {
        Some(section) => section_contains_key(section, "credential_process")
            || section_contains_key(section, "sso_session") || section_contains_key(
            section,
            "sso_start_url",
        ),
        None => false,
    };
    if in_config {
        return Ok(Some(true));
    }
    let credential_section = match credentials {
        Some(c) => get_profile_creds(c, aws_profile),
        None => None,
    };
    match credential_section {
        Some(section) => Ok(
            Some(
                section_contains_key(section, "credential_process") || section_contains_key(
                    section,
                    "sso_start_url",
                ),
            ),
        ),
        None => Ok(None),
    }
}

/// The variables that hold credentials.
pub open spec fn credential_variables() -> Seq<Seq<char>> {
    seq!["AWS_ACCESS_KEY_ID"@, "AWS_SECRET_ACCESS_KEY"@, "AWS_SESSION_TOKEN"@]
}

/// Whether credentials are laid down for a profile: yes where the
/// environment holds some; else whether the profile's section of the
/// credentials file has an access key, and no answer without such a section.
pub open spec fn defined_credentials(
    context: ContextView,
    profile: Option<Seq<char>>,
    cache: CacheView,
) -> Result<Option<bool>, RequestView> {
    if first_known(context.env, credential_variables()) is Some {
        Ok(Some(true))
    } else {
        match credentials_file(context, cache) {
            Err(request) => Err(request),
            Ok(credentials) => match credentials_section_in(credentials, profile) {
                Some(section) => Ok(Some(section.contains_key("aws_access_key_id"@))),
                None => Ok(None),
            },
        }
    }
}

/// Tells whether credentials are laid down for a profile.
pub fn has_defined_credentials(
    context: &Context,
    aws_profile: Option<&Profile>,
    cache: &FileCache,
) -> (found: Result<Option<bool>, FileRequest>)
    ensures
        or_request(found) == defined_credentials(context@, view_of(aws_profile), cache@),
{
    let valid_env_vars = ["AWS_ACCESS_KEY_ID", "AWS_SECRET_ACCESS_KEY", "AWS_SESSION_TOKEN"];
    assert(texts_of(valid_env_vars@) =~= credential_variables());
    if context.first_env(&valid_env_vars).is_some() {
        return Ok(Some(true));
    }
    let creds = match get_creds(context, cache)? {
        Some(c) => c,
        None => {
            return Ok(None);
        },
    };
    match get_profile_creds(creds, aws_profile) {
        Some(section) => Ok(Some(section_contains_key(section, "aws_access_key_id"))),
        None => Ok(None),
    }
}

/// The profile that a profile names as the source of its credentials.
pub open spec fn source_profile(config: Option<Sections>, profile: Option<Seq<char>>) -> Option<
    Seq<char>,
> {
    match config_section_in(config, profile) {
        Some(section) => lookup(section, "source_profile"@),
        None => None,
    }
}

/// Whether the profile that a profile names as its source has credentials of
/// either kind.  The source's own source is not looked at.  There is no
/// answer for a profile that names no source.
pub open spec fn source_profile_credentials(
    context: ContextView,
    profile: Option<Seq<char>>,
    cache: CacheView,
) -> Result<Option<bool>, RequestView> {
    match config_file(context, cache) {
        Err(request) => Err(request),
        Ok(config) => match source_profile(config, profile) {
            None => Ok(None),
            Some(source) => match credential_process_or_sso(context, Some(source), cache) {
                Err(request) => Err(request),
                Ok(process) => match defined_credentials(context, Some(source), cache) {
                    Err(request) => Err(request),
                    Ok(defined) => Ok(Some(process == Some(true) || defined == Some(true))),
                },
            },
        },
    }
}

/// Tells whether a profile names a source profile that has credentials.
pub fn has_source_profile(
    context: &Context,
    aws_profile: Option<&Profile>,
    cache: &FileCache,
) -> (found: Result<Option<bool>, FileRequest>)
    ensures
        or_request(found) == source_profile_credentials(context@, view_of(aws_profile), cache@),
{
    let config = match get_config(context, cache)? {
        Some(c) => c,
        None => {
            return Ok(None);
        },
    };
    let config_section = match get_profile_config(config, aws_profile) {
        Some(section) => section,
        None => {
            return Ok(None);
        },
    };
    let source_profile = match section_get(config_section, "source_profile") {
        Some(name) => name.to_owned(),
        None => {
            return Ok(None);
        },
    };
    let has_credential_process = has_credential_process_or_sso(
        context,
        Some(&source_profile),
        cache,
    )?;
    let has_credentials = has_defined_credentials(context, Some(&source_profile), cache)?;
    Ok(Some(has_credential_process == Some(true) || has_credentials == Some(true)))
}

/// Whether a profile is shown: always where the options force it, and else
/// where the profile has credentials from a process or single sign-on, from
/// its source profile, or laid down for itself.  A question without an answer
/// counts as no.
pub open spec fn displayed(
    context: ContextView,
    config: AwsConfigView,
    profile: Option<Seq<char>>,
    cache: CacheView,
) -> Result<bool, RequestView> {
    if config.force_display {
        Ok(true)
    } else {
        match credential_process_or_sso(context, profile, cache) {
            Err(request) => Err(request),
            Ok(Some(true)) => Ok(true),
            Ok(_) => match source_profile_credentials(context, profile, cache) {
                Err(request) => Err(request),
                Ok(Some(true)) => Ok(true),
                Ok(_) => match defined_credentials(context, profile, cache) {
                    Err(request) => Err(request),
                    Ok(defined) => Ok(defined == Some(true)),
                },
            },
        }
    }
}

/// Decides whether a profile is shown.
pub fn is_displayed(
    context: &Context,
    config: &AwsConfig,
    aws_profile: Option<&Profile>,
    cache: &FileCache,
) -> (shown: Result<bool, FileRequest>)
    ensures
        or_request(shown) == displayed(context@, config@, view_of(aws_profile), cache@),
{
    if config.force_display {
        return Ok(true);
    }
    if has_credential_process_or_sso(context, aws_profile, cache)? == Some(true) {
        return Ok(true);
    }
    if has_source_profile(context, aws_profile, cache)? == Some(true) {
        return Ok(true);
    }
    Ok(has_defined_credentials(context, aws_profile, cache)? == Some(true))
}

/// The variables that may hold the time at which credentials expire, the
/// most binding first.
pub open spec fn expiration_variables() -> Seq<Seq<char>> {
    seq!["AWS_CREDENTIAL_EXPIRATION"@, "AWS_SESSION_EXPIRATION"@, "AWSUME_EXPIRATION"@]
}

/// The keys under which a credentials file may hold the time at which
/// credentials expire, the most binding first.
pub open spec fn expiration_keys() -> Seq<Seq<char>> {
    seq!["expiration"@, "x_security_token_expires"@]
}

/// The point in time that a text gives, if there is a text and it gives one.
pub open spec fn timestamp_in(text: Option<Seq<char>>) -> Option<int> {
    match text {
        Some(t) => rfc3339_timestamp(t),
        None => None,
    }
}

/// The expiry that the environment gives: that of the first expiration
/// variable that is set.
pub open spec fn expiration_in_environment(context: ContextView) -> Option<int> {
    timestamp_in(first_known(context.env, expiration_variables()))
}

/// The expiry that the credentials file gives for a profile: that under the
/// first expiration key that the profile's section has.
pub open spec fn expiration_in_credentials(
    credentials: Option<Sections>,
    profile: Option<Seq<char>>,
) -> Option<int> {
    match credentials_section_in(credentials, profile) {
        Some(section) => timestamp_in(first_known(section, expiration_keys())),
        None => None,
    }
}

/// The expiry that a cached single sign-on token gives: that in the member
/// `expiresAt` of the JSON document.
pub open spec fn expiration_in_sso_cache(text: Option<Seq<char>>) -> Option<int> {
    match text {
        Some(t) => timestamp_in(document_member(t, "expiresAt"@)),
        None => None,
    }
}

/// The start URL of single sign-on that the configuration file gives for a
/// profile.
pub open spec fn sso_start_url(config: Option<Sections>, profile: Option<Seq<char>>) -> Option<
    Seq<char>,
> {
    match config_section_in(config, profile) {
        Some(section) => lookup(section, "sso_start_url"@),
        None => None,
    }
}

/// Where the token of a start URL is cached: below the home directory, in
/// `.aws/sso/cache`, in a file named by the URL's cache key.
pub open spec fn sso_cache_location(home: Option<Seq<char>>, start_url: Option<Seq<char>>) -> Option<
    LocationView,
> {
    match start_url {
        Some(url) => match home {
            Some(h) => Some(
                LocationView::UnderHome {
                    home: h,
                    relative: ".aws/sso/cache/"@ + cache_key(url) + ".json"@,
                },
            ),
            None => None,
        },
        None => None,
    }
}

/// The point in time at which the credentials of a profile expire, in seconds
/// since the epoch.  Three sources are tried in turn, and the first that
/// gives a point in time decides: the environment, the credentials file, the
/// cached single sign-on token.  A source that is missing or cannot be read
/// gives none.
pub open spec fn credentials_expiration(
    context: ContextView,
    profile: Option<Seq<char>>,
    cache: CacheView,
) -> Result<Option<int>, RequestView> {
    match expiration_in_environment(context) {
        Some(expiry) => Ok(Some(expiry)),
        None => match credentials_file(context, cache) {
            Err(request) => Err(request),
            Ok(credentials) => match expiration_in_credentials(credentials, profile) {
                Some(expiry) => Ok(Some(expiry)),
                None => match config_file(context, cache) {
                    Err(request) => Err(request),
                    Ok(config) => match sso_cache_location(
                        context.home,
                        sso_start_url(config, profile),
                    ) {
                        None => Ok(None),
                        Some(location) => match cache.sso_cache {
                            Slot::Uninitialized => Err(
                                RequestView { kind: FileKind::SsoCache, location },
                            ),
                            Slot::Loaded(text) => Ok(expiration_in_sso_cache(text)),
                        },
                    },
                },
            },
        },
    }
}

/// What a section says of the first of the given keys that it has.
fn first_entry<'a>(section: &'a Properties, keys: &[&str]) -> (value: Option<&'a str>)
    ensures
        view_of(value) == first_known(section_entries(*section), texts_of(keys@)),
{
    let mut i: usize = 0;
    assert(texts_of(keys@).skip(0) =~= texts_of(keys@));
    while i < keys.len()
        invariant
            i <= keys@.len(),
            first_known(section_entries(*section), texts_of(keys@)) == first_known(
                section_entries(*section),
                texts_of(keys@).skip(i as int),
            ),
        decreases keys@.len() - i,
    {
        let ghost rest = texts_of(keys@).skip(i as int);
        assert(rest[0] == keys@[i as int]@);
        assert(rest.drop_first() =~= texts_of(keys@).skip(i + 1));
        match section_get(section, keys[i]) {
            Some(v) => {
                return Some(v);
            },
            None => {},
        }
        i += 1;
    }
    None
}

/// Reads a point in time out of a text that may be absent.
fn parse_timestamp(text: Option<&str>) -> (seconds: Option<i64>)
    ensures
        match seconds {
            Some(s) => timestamp_in(view_of(text)) == Some(s as int) && is_timestamp(s as int),
            None => timestamp_in(view_of(text)) is None,
        },
{
    match text {
        Some(t) => parse_rfc3339(t),
        None => None,
    }
}

/// Where the token of a profile's single sign-on is cached, if the profile
/// has a start URL and the home directory is known.
pub fn get_sso_cache_file_path(
    context: &Context,
    config: Option<&Ini>,
    aws_profile: Option<&Profile>,
) -> (location: Option<FileLocation>)
    ensures
        view_of(location) == sso_cache_location(
            context@.home,
            sso_start_url(
                match config {
                    Some(c) => Some(ini_sections(*c)),
                    None => None,
                },
                view_of(aws_profile),
            ),
        ),
{
    let section = match config {
        Some(c) => get_profile_config(c, aws_profile),
        None => None,
    };
    let start_url = match section {
        Some(s) => section_get(s, "sso_start_url"),
        None => None,
    };
    match start_url {
        Some(url) => {
            let cache_key = sso_cache_key(url);
            match context.get_home() {
                Some(home) => {
                    let mut relative = String::from_str(".aws/sso/cache/");
                    relative.append(cache_key.as_str());
                    relative.append(".json");
                    Some(FileLocation::UnderHome { home, relative })
                },
                None => None,
            }
        },
        None => None,
    }
}

/// A number of seconds or the request that stands in its way, as contracts
/// see it.
pub open spec fn seconds_or_request(seconds: Result<Option<i64>, FileRequest>) -> Result<
    Option<int>,
    RequestView,
> {
    match seconds {
        Ok(Some(s)) => Ok(Some(s as int)),
        Ok(None) => Ok(None),
        Err(request) => Err(request@),
    }
}

/// Finds the point in time at which the credentials of a profile expire.
pub fn get_credentials_expiration(
    context: &Context,
    aws_profile: Option<&Profile>,
    cache: &FileCache,
) -> (expiry: Result<Option<i64>, FileRequest>)
    ensures
        seconds_or_request(expiry) == credentials_expiration(
            context@,
            view_of(aws_profile),
            cache@,
        ),
        expiry matches Ok(Some(e)) ==> is_timestamp(e as int),
{
    let expiration_env_vars = [
        "AWS_CREDENTIAL_EXPIRATION",
        "AWS_SESSION_EXPIRATION",
        "AWSUME_EXPIRATION",
    ];
    assert(texts_of(expiration_env_vars@) =~= expiration_variables());
    let from_environment = context.first_env(&expiration_env_vars);
    let in_environment = match &from_environment {
        Some(text) => parse_rfc3339(text.as_str()),
        None => None,
    };
    if in_environment.is_some() {
        return Ok(in_environment);
    }
    let credentials = get_creds(context, cache)?;
    let section = match credentials {
        Some(creds) => get_profile_creds(creds, aws_profile),
        None => None,
    };
    let in_credentials = match section {
        Some(s) => {
            let keys = ["expiration", "x_security_token_expires"];
            assert(texts_of(keys@) =~= expiration_keys());
            parse_timestamp(first_entry(s, &keys))
        },
        None => None,
    };
    if in_credentials.is_some() {
        return Ok(in_credentials);
    }
    let config = get_config(context, cache)?;
    let location = match get_sso_cache_file_path(context, config, aws_profile) {
        Some(l) => l,
        None => {
            return Ok(None);
        },
    };
    match cache.sso_cache() {
        Slot::Uninitialized => Err(FileRequest { kind: FileKind::SsoCache, location }),
        Slot::Loaded(None) => Ok(None),
        Slot::Loaded(Some(text)) => {
            let expires_at = string_member(text.as_str(), "expiresAt");
            match &expires_at {
                Some(e) => Ok(parse_rfc3339(e.as_str())),
                None => Ok(None),
            }
        },
    }
}

/// The seconds that the credentials of a profile have left at the time
/// `now`; not above zero once they have expired.
pub open spec fn credentials_duration(
    context: ContextView,
    profile: Option<Seq<char>>,
    cache: CacheView,
    now: int,
) -> Result<Option<int>, RequestView> {
    match credentials_expiration(context, profile, cache) {
        Ok(Some(expiry)) => Ok(Some(expiry - now)),
        Ok(None) => Ok(None),
        Err(request) => Err(request),
    }
}

/// Finds the seconds that the credentials of a profile have left at the time
/// `now`, which the caller has read off the clock.
pub fn get_credentials_duration(
    context: &Context,
    aws_profile: Option<&Profile>,
    cache: &FileCache,
    now: i64,
) -> (duration: Result<Option<i64>, FileRequest>)
    requires
        is_timestamp(now as int),
    ensures
        seconds_or_request(duration) == credentials_duration(
            context@,
            view_of(aws_profile),
            cache@,
            now as int,
        ),
{
    match get_credentials_expiration(context, aws_profile, cache)? {
        Some(expiry) => Ok(Some(remaining_seconds(expiry, now))),
        None => Ok(None),
    }
}

/// What is shown for the time that credentials have left: the time itself
/// while some is left, and the symbol for expired credentials from then on.
pub open spec fn duration_text(config: AwsConfigView, duration: int) -> Seq<char> {
    if duration > 0 {
        rendered_time((duration * 1000) as nat, false)
    } else {
        config.expiration_symbol
    }
}

/// Renders the time that credentials have left.
pub fn render_duration(config: &AwsConfig, duration: i64) -> (text: String)
    ensures
        text@ == duration_text(config@, duration as int),
{
    if duration > 0 {
        render_time((duration as u128) * 1000, false)
    } else {
        config.expiration_symbol.clone()
    }
}

/// What the module hands to the one who lays it out.
#[derive(Clone, Debug, PartialEq, Eq)]
pub struct AwsModule {
    /// The module's symbol, from the options.
    pub symbol: String,
    /// The module's style, from the options.
    pub style: String,
    /// The profile, under its alias if it has one.
    pub profile: Option<String>,
    /// The region, under its alias if it has one.
    pub region: Option<String>,
    /// The time that the credentials have left, or the symbol for expired
    /// credentials; absent where no expiry is known.
    pub duration: Option<String>,
}

/// An [`AwsModule`] as contracts see it.
pub struct AwsModuleView {
    pub symbol: Seq<char>,
    pub style: Seq<char>,
    pub profile: Option<Seq<char>>,
    pub region: Option<Seq<char>>,
    pub duration: Option<Seq<char>>,
}

impl View for AwsModule {
    type V = AwsModuleView;

    open spec fn view(&self) -> AwsModuleView {
        AwsModuleView {
            symbol: self.symbol@,
            style: self.style@,
            profile: view_of(self.profile),
            region: view_of(self.region),
            duration: view_of(self.duration),
        }
    }
}

/// The profile and the region to show, or `None` where nothing is shown:
/// where neither a profile nor a region is in force, and where the profile
/// in force is not one to show.
pub open spec fn displayed_identity(
    context: ContextView,
    config: AwsConfigView,
    cache: CacheView,
) -> Result<Option<(Option<Seq<char>>, Option<Seq<char>>)>, RequestView> {
    match profile_and_region(context, cache) {
        Err(request) => Err(request),
        Ok((profile, region)) => if profile is None && region is None {
            Ok(None)
        } else {
            match displayed(context, config, profile, cache) {
                Err(request) => Err(request),
                Ok(true) => Ok(Some((profile, region))),
                Ok(false) => Ok(None),
            }
        },
    }
}

/// The module for a profile and a region, with the seconds that the
/// credentials have left.
pub open spec fn presented(
    config: AwsConfigView,
    profile: Option<Seq<char>>,
    region: Option<Seq<char>>,
    duration: Option<int>,
) -> AwsModuleView {
    AwsModuleView {
        symbol: config.symbol,
        style: config.style,
        profile: aliased(profile, config.profile_aliases),
        region: aliased(region, config.region_aliases),
        duration: match duration {
            Some(d) => Some(duration_text(config, d)),
            None => None,
        },
    }
}

/// What the module shows at the time `now`: nothing, or the profile and the
/// region in force with the time that the credentials have left.
pub open spec fn module_at_time(
    context: ContextView,
    config: AwsConfigView,
    cache: CacheView,
    now: int,
) -> Result<Option<AwsModuleView>, RequestView> {
    match displayed_identity(context, config, cache) {
        Err(request) => Err(request),
        Ok(None) => Ok(None),
        Ok(Some((profile, region))) => match credentials_duration(context, profile, cache, now) {
            Err(request) => Err(request),
            Ok(duration) => Ok(Some(presented(config, profile, region, duration))),
        },
    }
}

/// A profile and a region to show, nothing to show, or the request that
/// stands in the way, as contracts see it.
pub open spec fn identity_or_request(
    found: Result<Option<(Option<String>, Option<String>)>, FileRequest>,
) -> Result<Option<(Option<Seq<char>>, Option<Seq<char>>)>, RequestView> {
    match found {
        Ok(Some((profile, region))) => Ok(Some((view_of(profile), view_of(region)))),
        Ok(None) => Ok(None),
        Err(request) => Err(request@),
    }
}

/// Finds the profile and the region to show.
fn get_displayed_identity(context: &Context, config: &AwsConfig, cache: &FileCache) -> (found:
    Result<Option<(Option<Profile>, Option<Region>)>, FileRequest>)
    ensures
        identity_or_request(found) == displayed_identity(context@, config@, cache@),
{
    let (aws_profile, aws_region) = get_aws_profile_and_region(context, cache)?;
    if aws_profile.is_none() && aws_region.is_none() {
        return Ok(None);
    }
    if is_displayed(context, config, aws_profile.as_ref(), cache)? {
        Ok(Some((aws_profile, aws_region)))
    } else {
        Ok(None)
    }
}

/// Puts the module together.
fn present(
    config: &AwsConfig,
    aws_profile: Option<Profile>,
    aws_region: Option<Region>,
    duration: Option<i64>,
) -> (shown: AwsModule)
    ensures
        shown@ == presented(
            config@,
            view_of(aws_profile),
            view_of(aws_region),
            match duration {
                Some(d) => Some(d as int),
                None => None,
            },
        ),
{
    let duration = match duration {
        Some(d) => Some(render_duration(config, d)),
        None => None,
    };
    AwsModule {
        symbol: config.symbol.clone(),
        style: config.style.clone(),
        profile: alias_name(aws_profile, &config.profile_aliases),
        region: alias_name(aws_region, &config.region_aliases),
        duration,
    }
}

/// A module, nothing to show, or the request that stands in the way, as
/// contracts see it.
pub open spec fn module_or_request(shown: Result<Option<AwsModule>, FileRequest>) -> Result<
    Option<AwsModuleView>,
    RequestView,
> {
    match shown {
        Ok(Some(module)) => Ok(Some(module@)),
        Ok(None) => Ok(None),
        Err(request) => Err(request@),
    }
}

/// Resolves what the module shows at the time `now`, which the caller has
/// read off the clock.
///
/// `Ok(None)` says that nothing is shown.  `Err` names a file that must be
/// handed to the cache first.
pub fn module(context: &Context, config: &AwsConfig, cache: &FileCache, now: i64) -> (shown:
    Result<Option<AwsModule>, FileRequest>)
    requires
        is_timestamp(now as int),
    ensures
        module_or_request(shown) == module_at_time(context@, config@, cache@, now as int),
{
    match get_displayed_identity(context, config, cache)? {
        Some((aws_profile, aws_region)) => {
            let duration = get_credentials_duration(context, aws_profile.as_ref(), cache, now)?;
            Ok(Some(present(config, aws_profile, aws_region, duration)))
        },
        None => Ok(None),
    }
}

} // verus!
