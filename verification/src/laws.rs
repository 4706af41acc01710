//! What holds of every resolution pass.
use vstd::prelude::*;
use crate::aws::AwsModuleView;
use crate::aws::aliased;
use crate::aws::config_file;
use crate::aws::config_file_location;
use crate::aws::config_section_in;
use crate::aws::credentials_file;
use crate::aws::credentials_section_in;
use crate::aws::credential_process_or_sso;
use crate::aws::credential_variables;
use crate::aws::credentials_expiration;
use crate::aws::credentials_file_location;
use crate::aws::defined_credentials;
use crate::aws::expiration_keys;
use crate::aws::expiration_variables;
use crate::aws::module_at_time;
use crate::aws::profile_and_region;
use crate::aws::profile_variables;
use crate::aws::region_from_config;
use crate::aws::region_variables;
use crate::aws::section_named;
use crate::aws::source_profile;
use crate::aws::source_profile_credentials;
use crate::aws::sso_cache_location;
use crate::aws::sso_start_url;
use crate::config::AwsConfig;
use crate::config::AwsConfigView;
use crate::context::Context;
use crate::context::ContextView;
use crate::files::CacheView;
use crate::files::FileCache;
use crate::files::FileKind;
use crate::files::LocationView;
use crate::files::RequestView;
use crate::files::Slot;
use crate::files::parsed;
use crate::text::Entries;
use crate::text::first_known;
use crate::text::lemma_first_known_of_three;
use crate::text::lemma_first_known_of_two;
use crate::text::lemma_first_known_unfolds;
use crate::text::lookup;
use crate::text::or_else;
use crate::time::rendered_time;

verus! {

/// Where the environment names neither a profile nor a region, the options
/// do not force the module, and the default profile has credentials of no
/// kind, nothing is shown, whatever the files hold: the pass ends with
/// nothing to show, unless it still waits for a file.
pub proof fn lemma_nothing_found_nothing_shown(
    context: ContextView,
    config: AwsConfigView,
    cache: CacheView,
    now: int,
)
    requires
        first_known(context.env, profile_variables()) is None,
        first_known(context.env, region_variables()) is None,
        !config.force_display,
        !(credential_process_or_sso(context, None, cache) matches Ok(Some(true))),
        !(source_profile_credentials(context, None, cache) matches Ok(Some(true))),
        !(defined_credentials(context, None, cache) matches Ok(Some(true))),
    ensures
        module_at_time(context, config, cache, now) matches Ok(shown) ==> shown is None,
{
}

/// Where the environment names neither a profile nor a region and the
/// configuration file gives no region for the default profile, nothing is
/// shown, whatever the options say and whatever the credentials file holds.
pub proof fn lemma_no_identity_nothing_shown(
    context: ContextView,
    config: AwsConfigView,
    cache: CacheView,
    now: int,
)
    requires
        first_known(context.env, profile_variables()) is None,
        first_known(context.env, region_variables()) is None,
        region_from_config(context, None, cache) matches Ok(None),
    ensures
        module_at_time(context, config, cache, now) matches Ok(None),
{
}

/// The default profile is read from the section `default` of the
/// configuration file and from no other: two files whose sections `default`
/// agree give it the same region, whatever else they hold, a section
/// `profile default` included.
pub proof fn lemma_default_profile_reads_default_section(
    context: ContextView,
    cache: CacheView,
    other: CacheView,
)
    requires
        cache.config matches Slot::Loaded(Some(file)) && other.config matches Slot::Loaded(
            Some(other_file),
        ) && section_named(file, "default"@) == section_named(other_file, "default"@),
    ensures
        region_from_config(context, None, cache) == region_from_config(context, None, other),
{
}

/// The profile is that of the first of `AWSU_PROFILE`, `AWS_VAULT`,
/// `AWSUME_PROFILE`, `AWS_PROFILE` and `AWS_SSO_PROFILE` that is set.
pub proof fn lemma_profile_variables_in_order(env: Entries)
    ensures
        first_known(env, profile_variables()) == or_else(
            lookup(env, "AWSU_PROFILE"@),
            or_else(
                lookup(env, "AWS_VAULT"@),
                or_else(
                    lookup(env, "AWSUME_PROFILE"@),
                    or_else(lookup(env, "AWS_PROFILE"@), lookup(env, "AWS_SSO_PROFILE"@)),
                ),
            ),
        ),
{
    let names = profile_variables();
    lemma_first_known_unfolds(env, names);
    let after_one = names.drop_first();
    lemma_first_known_unfolds(env, after_one);
    let after_two = after_one.drop_first();
    assert(after_two =~= seq!["AWSUME_PROFILE"@, "AWS_PROFILE"@, "AWS_SSO_PROFILE"@]);
    lemma_first_known_of_three(env, "AWSUME_PROFILE"@, "AWS_PROFILE"@, "AWS_SSO_PROFILE"@);
}

/// The region that the environment names is that of `AWS_REGION` where it
/// is set, and else that of `AWS_DEFAULT_REGION`.
pub proof fn lemma_region_variables_in_order(env: Entries)
    ensures
        first_known(env, region_variables()) == or_else(
            lookup(env, "AWS_REGION"@),
            lookup(env, "AWS_DEFAULT_REGION"@),
        ),
{
    lemma_first_known_of_two(env, "AWS_REGION"@, "AWS_DEFAULT_REGION"@);
}

/// The environment holds credentials where one of `AWS_ACCESS_KEY_ID`,
/// `AWS_SECRET_ACCESS_KEY` and `AWS_SESSION_TOKEN` is set.
pub proof fn lemma_credential_variables(env: Entries)
    ensures
        first_known(env, credential_variables()) is Some <==> env.contains_key(
            "AWS_ACCESS_KEY_ID"@,
        ) || env.contains_key("AWS_SECRET_ACCESS_KEY"@) || env.contains_key("AWS_SESSION_TOKEN"@),
{
    lemma_first_known_of_three(
        env,
        "AWS_ACCESS_KEY_ID"@,
        "AWS_SECRET_ACCESS_KEY"@,
        "AWS_SESSION_TOKEN"@,
    );
}

/// The expiry that the environment names is that of the first of
/// `AWS_CREDENTIAL_EXPIRATION`, `AWS_SESSION_EXPIRATION` and
/// `AWSUME_EXPIRATION` that is set.
pub proof fn lemma_expiration_variables_in_order(env: Entries)
    ensures
        first_known(env, expiration_variables()) == or_else(
            lookup(env, "AWS_CREDENTIAL_EXPIRATION"@),
            or_else(lookup(env, "AWS_SESSION_EXPIRATION"@), lookup(env, "AWSUME_EXPIRATION"@)),
        ),
{
    lemma_first_known_of_three(
        env,
        "AWS_CREDENTIAL_EXPIRATION"@,
        "AWS_SESSION_EXPIRATION"@,
        "AWSUME_EXPIRATION"@,
    );
}

/// The expiry that a section of the credentials file names is that under
/// `expiration` where the section has this key, and else that under
/// `x_security_token_expires`.
pub proof fn lemma_expiration_keys_in_order(section: Entries)
    ensures
        first_known(section, expiration_keys()) == or_else(
            lookup(section, "expiration"@),
            lookup(section, "x_security_token_expires"@),
        ),
{
    lemma_first_known_of_two(section, "expiration"@, "x_security_token_expires"@);
}

/// `AWS_REGION` decides the region wherever it is set: neither
/// `AWS_DEFAULT_REGION` nor a file is asked.
pub proof fn lemma_region_variable_takes_precedence(context: ContextView, cache: CacheView)
    requires
        context.env.contains_key("AWS_REGION"@),
    ensures
        profile_and_region(context, cache) matches Ok(found) && found == (
            first_known(context.env, profile_variables()),
            Some(context.env["AWS_REGION"@]),
        ),
{
    lemma_region_variables_in_order(context.env);
}

/// `AWS_DEFAULT_REGION` decides the region where it is set and `AWS_REGION`
/// is not.
pub proof fn lemma_default_region_variable_comes_second(context: ContextView, cache: CacheView)
    requires
        !context.env.contains_key("AWS_REGION"@),
        context.env.contains_key("AWS_DEFAULT_REGION"@),
    ensures
        profile_and_region(context, cache) matches Ok(found) && found == (
            first_known(context.env, profile_variables()),
            Some(context.env["AWS_DEFAULT_REGION"@]),
        ),
{
    lemma_region_variables_in_order(context.env);
}

/// An alias stands for exactly the name that it is given for.  A name
/// without an alias is shown as it is, and where there is no name, none is
/// made up.
pub proof fn lemma_alias_is_exact(name: Seq<char>, aliases: Entries)
    ensures
        aliases.contains_key(name) ==> aliased(Some(name), aliases) == Some(aliases[name]),
        !aliases.contains_key(name) ==> aliased(Some(name), aliases) == Some(name),
        aliased(None, aliases) is None,
{
}

/// Aliases change the names that are shown and nothing else: with other
/// aliases the pass asks for the same files, shows something in the same
/// cases, and shows the same time left.
pub proof fn lemma_aliases_change_names_only(
    context: ContextView,
    config: AwsConfigView,
    profile_aliases: Entries,
    region_aliases: Entries,
    cache: CacheView,
    now: int,
)
    ensures
        match module_at_time(context, config, cache, now) {
            Ok(Some(shown)) => module_at_time(
                context,
                AwsConfigView { profile_aliases, region_aliases, ..config },
                cache,
                now,
            ) matches Ok(Some(other)) && other.duration == shown.duration && other.symbol
                == shown.symbol && other.style == shown.style,
            answer => module_at_time(
                context,
                AwsConfigView { profile_aliases, region_aliases, ..config },
                cache,
                now,
            ) == answer,
        },
{
}

/// Credentials that have expired are shown with the symbol for expired
/// credentials and never with a time: from the second of the expiry on, the
/// module that is shown carries the symbol from the options.
pub proof fn lemma_expired_shows_the_symbol(
    context: ContextView,
    config: AwsConfigView,
    cache: CacheView,
    now: int,
)
    requires
        module_at_time(context, config, cache, now) matches Ok(Some(_)),
        credentials_expiration(
            context,
            first_known(context.env, profile_variables()),
            cache,
        ) matches Ok(Some(expiry)) && expiry <= now,
    ensures
        module_at_time(context, config, cache, now) matches Ok(Some(shown)) && shown.duration
            == Some(config.expiration_symbol),
{
}

/// Credentials that have time left are shown with that time, in days,
/// hours, minutes and seconds.
pub proof fn lemma_time_left_is_shown(
    context: ContextView,
    config: AwsConfigView,
    cache: CacheView,
    now: int,
)
    requires
        module_at_time(context, config, cache, now) matches Ok(Some(_)),
        credentials_expiration(
            context,
            first_known(context.env, profile_variables()),
            cache,
        ) matches Ok(Some(expiry)) && expiry > now,
    ensures
        module_at_time(context, config, cache, now) matches Ok(Some(shown))
            && credentials_expiration(
            context,
            first_known(context.env, profile_variables()),
            cache,
        ) matches Ok(Some(expiry)) && shown.duration == Some(
            rendered_time(((expiry - now) * 1000) as nat, false),
        ),
{
}

/// A section that may be absent, taken as a section without entries.
pub open spec fn or_empty(section: Option<Entries>) -> Entries {
    match section {
        Some(entries) => entries,
        None => Map::empty(),
    }
}

/// A profile gets its credentials from a credential process or from single
/// sign-on exactly where its section of the configuration file has
/// `credential_process`, `sso_session` or `sso_start_url`, or its section of
/// the credentials file has `credential_process` or `sso_start_url`.  A
/// section that is missing, with its file or without, counts as empty, and
/// no other section counts.
pub proof fn lemma_marker_is_read_from_both_files(
    context: ContextView,
    profile: Option<Seq<char>>,
    cache: CacheView,
)
    requires
        config_file(context, cache) is Ok,
        credentials_file(context, cache) is Ok,
    ensures
        credential_process_or_sso(context, profile, cache) matches Ok(found) && (found == Some(
            true,
        ) <==> {
            let in_config = or_empty(config_section_in(config_file(context, cache)->Ok_0, profile));
            let in_credentials = or_empty(
                credentials_section_in(credentials_file(context, cache)->Ok_0, profile),
            );
            ||| in_config.contains_key("credential_process"@)
            ||| in_config.contains_key("sso_session"@)
            ||| in_config.contains_key("sso_start_url"@)
            ||| in_credentials.contains_key("credential_process"@)
            ||| in_credentials.contains_key("sso_start_url"@)
        }),
{
}

/// A source profile is asked for its own credentials and for nothing else:
/// where it has none, the answer is no, whatever source it names in turn.
pub proof fn lemma_source_profile_is_one_step(
    context: ContextView,
    profile: Option<Seq<char>>,
    source: Seq<char>,
    cache: CacheView,
)
    requires
        config_file(context, cache) matches Ok(config) && source_profile(config, profile) == Some(
            source,
        ),
        credential_process_or_sso(context, Some(source), cache) matches Ok(process) && process
            != Some(true),
        defined_credentials(context, Some(source), cache) matches Ok(defined) && defined != Some(
            true,
        ),
    ensures
        source_profile_credentials(context, profile, cache) matches Ok(Some(false)),
{
}

/// Two passes over the same environment, the same options and the same
/// files, at the same time, show the same: the answer depends on the values
/// that a pass is given only through what contracts see of them.
pub proof fn lemma_same_state_same_answer(
    context: Context,
    config: AwsConfig,
    cache: FileCache,
    other_context: Context,
    other_config: AwsConfig,
    other_cache: FileCache,
    now: int,
)
    requires
        context@ == other_context@,
        config@ == other_config@,
        cache@ == other_cache@,
    ensures
        module_at_time(context@, config@, cache@, now) == module_at_time(
            other_context@,
            other_config@,
            other_cache@,
            now,
        ),
{
}

/// The first text that is handed in for a file stays: what is handed in for
/// the same file later changes nothing.
pub proof fn lemma_first_text_stays(
    cache: CacheView,
    kind: FileKind,
    first: Option<Seq<char>>,
    later: Option<Seq<char>>,
)
    ensures
        cache.provide(kind, first).is_loaded(kind),
        cache.provide(kind, first).provide(kind, later) == cache.provide(kind, first),
{
}

/// A pass asks only for a file that the cache does not hold yet, so that no
/// file is read twice.
pub proof fn lemma_request_is_for_an_empty_slot(
    context: ContextView,
    config: AwsConfigView,
    cache: CacheView,
    now: int,
)
    ensures
        module_at_time(context, config, cache, now) matches Err(request) ==> !cache.is_loaded(
            request.kind,
        ),
{
}

/// Once the cache holds all three files, the pass asks for nothing more.
pub proof fn lemma_full_cache_is_answered(
    context: ContextView,
    config: AwsConfigView,
    cache: CacheView,
    now: int,
)
    requires
        cache.is_loaded(FileKind::Config),
        cache.is_loaded(FileKind::Credentials),
        cache.is_loaded(FileKind::SsoCache),
    ensures
        module_at_time(context, config, cache, now) is Ok,
{
}

/// Whether a text can have been read for a file: any text where the file
/// has a place to be read from, and only one that holds nothing where the
/// configuration or credentials file has none.
pub open spec fn readable(context: ContextView, kind: FileKind, text: Option<Seq<char>>) -> bool {
    match kind {
        FileKind::Config => config_file_location(context) is Some || parsed(text) is None,
        FileKind::Credentials => credentials_file_location(context) is Some || parsed(text)
            is None,
        FileKind::SsoCache => true,
    }
}

/// A pass asks only for a file that has a place, so that whatever is read
/// on its request can have been read.
pub proof fn lemma_request_has_a_place(
    context: ContextView,
    config: AwsConfigView,
    cache: CacheView,
    now: int,
    text: Option<Seq<char>>,
)
    ensures
        module_at_time(context, config, cache, now) matches Err(request) ==> readable(
            context,
            request.kind,
            text,
        ),
{
}

/// An answer is final: a file that is read and handed to the cache after
/// the pass has given its answer does not change the answer.
pub proof fn lemma_answer_is_final(
    context: ContextView,
    config: AwsConfigView,
    cache: CacheView,
    now: int,
    kind: FileKind,
    text: Option<Seq<char>>,
)
    requires
        module_at_time(context, config, cache, now) is Ok,
        readable(context, kind, text),
    ensures
        module_at_time(context, config, cache.provide(kind, text), now) == module_at_time(
            context,
            config,
            cache,
            now,
        ),
{
}

/// A whole pass: the module is asked, each file that it requests is handed
/// to the cache with the text that `files` has for it, and so on until the
/// module answers or `reads` files have been read.
pub open spec fn pass(
    context: ContextView,
    config: AwsConfigView,
    cache: CacheView,
    files: spec_fn(RequestView) -> Option<Seq<char>>,
    now: int,
    reads: nat,
) -> Result<Option<AwsModuleView>, RequestView>
    decreases reads,
{
    match module_at_time(context, config, cache, now) {
        Ok(shown) => Ok(shown),
        Err(request) => if reads == 0 {
            Err(request)
        } else {
            pass(
                context,
                config,
                cache.provide(request.kind, files(request)),
                files,
                now,
                (reads - 1) as nat,
            )
        },
    }
}

/// The number of files that a cache holds.
pub open spec fn loaded_files(cache: CacheView) -> nat {
    let config: nat = if cache.is_loaded(FileKind::Config) {
        1
    } else {
        0
    };
    let credentials: nat = if cache.is_loaded(FileKind::Credentials) {
        1
    } else {
        0
    };
    let sso_cache: nat = if cache.is_loaded(FileKind::SsoCache) {
        1
    } else {
        0
    };
    config + credentials + sso_cache
}

/// A pass that may read as many files as its cache still lacks comes to an
/// answer.
pub proof fn lemma_pass_ends(
    context: ContextView,
    config: AwsConfigView,
    cache: CacheView,
    files: spec_fn(RequestView) -> Option<Seq<char>>,
    now: int,
    reads: nat,
)
    requires
        loaded_files(cache) + reads >= 3,
    ensures
        pass(context, config, cache, files, now, reads) is Ok,
    decreases reads,
{
    match module_at_time(context, config, cache, now) {
        Ok(_) => {},
        Err(request) => {
            lemma_request_is_for_an_empty_slot(context, config, cache, now);
            if reads == 0 {
                lemma_full_cache_is_answered(context, config, cache, now);
            } else {
                let next = cache.provide(request.kind, files(request));
                assert(loaded_files(next) == loaded_files(cache) + 1);
                lemma_pass_ends(context, config, next, files, now, (reads - 1) as nat);
            }
        },
    }
}

/// A pass that starts with an empty cache reads at most three files.
pub proof fn lemma_three_files_suffice(
    context: ContextView,
    config: AwsConfigView,
    files: spec_fn(RequestView) -> Option<Seq<char>>,
    now: int,
)
    ensures
        pass(context, config, CacheView::empty(), files, now, 3) is Ok,
{
    lemma_pass_ends(context, config, CacheView::empty(), files, now, 3);
}

/// The text that `files` has for the file of a kind at a place, and nothing
/// for a file without a place.
pub open spec fn text_at(
    files: spec_fn(RequestView) -> Option<Seq<char>>,
    kind: FileKind,
    location: Option<LocationView>,
) -> Option<Seq<char>> {
    match location {
        Some(l) => files(RequestView { kind, location: l }),
        None => None,
    }
}

/// The cache of one who has read all three files before asking anything.
pub open spec fn read_ahead(
    context: ContextView,
    files: spec_fn(RequestView) -> Option<Seq<char>>,
) -> CacheView {
    let config = parsed(text_at(files, FileKind::Config, config_file_location(context)));
    let credentials = parsed(
        text_at(files, FileKind::Credentials, credentials_file_location(context)),
    );
    let start_url = sso_start_url(config, first_known(context.env, profile_variables()));
    let sso_cache = text_at(
        files,
        FileKind::SsoCache,
        sso_cache_location(context.home, start_url),
    );
    CacheView {
        config: Slot::Loaded(config),
        credentials: Slot::Loaded(credentials),
        sso_cache: Slot::Loaded(sso_cache),
    }
}

/// Whether a cache holds nothing but what reading ahead would have put
/// there.
pub open spec fn within(cache: CacheView, ahead: CacheView) -> bool {
    &&& cache.config is Loaded ==> cache.config == ahead.config
    &&& cache.credentials is Loaded ==> cache.credentials == ahead.credentials
    &&& cache.sso_cache is Loaded ==> cache.sso_cache == ahead.sso_cache
}

/// Reading files only when they are asked for shows the same as reading all
/// of them ahead: a pass that starts within what reading ahead would give,
/// and may read as many files as its cache lacks, ends with the answer that
/// the module gives to one who has read ahead.
pub proof fn lemma_pass_agrees_with_reading_ahead(
    context: ContextView,
    config: AwsConfigView,
    cache: CacheView,
    files: spec_fn(RequestView) -> Option<Seq<char>>,
    now: int,
    reads: nat,
)
    requires
        within(cache, read_ahead(context, files)),
        loaded_files(cache) + reads >= 3,
    ensures
        pass(context, config, cache, files, now, reads) == module_at_time(
            context,
            config,
            read_ahead(context, files),
            now,
        ),
    decreases reads,
{
    let ahead = read_ahead(context, files);
    match module_at_time(context, config, cache, now) {
        Ok(_) => {
            let text = text_at(files, FileKind::Config, config_file_location(context));
            let with_config = cache.provide(FileKind::Config, text);
            lemma_answer_is_final(context, config, cache, now, FileKind::Config, text);
            let text = text_at(files, FileKind::Credentials, credentials_file_location(context));
            let with_credentials = with_config.provide(FileKind::Credentials, text);
            lemma_answer_is_final(context, config, with_config, now, FileKind::Credentials, text);
            let text = match ahead.sso_cache {
                Slot::Loaded(t) => t,
                Slot::Uninitialized => None,
            };
            let with_all = with_credentials.provide(FileKind::SsoCache, text);
            lemma_answer_is_final(context, config, with_credentials, now, FileKind::SsoCache, text);
            assert(with_all == ahead);
        },
        Err(request) => {
            lemma_request_is_for_an_empty_slot(context, config, cache, now);
            if reads == 0 {
                lemma_full_cache_is_answered(context, config, cache, now);
            } else {
                let next = cache.provide(request.kind, files(request));
                assert(loaded_files(next) == loaded_files(cache) + 1);
                assert(within(next, ahead));
                lemma_pass_agrees_with_reading_ahead(
                    context,
                    config,
                    next,
                    files,
                    now,
                    (reads - 1) as nat,
                );
            }
        },
    }
}

/// A pass that starts with an empty cache shows what the module shows to
/// one who has read all three files ahead.
pub proof fn lemma_lazy_pass_is_the_eager_answer(
    context: ContextView,
    config: AwsConfigView,
    files: spec_fn(RequestView) -> Option<Seq<char>>,
    now: int,
)
    ensures
        pass(context, config, CacheView::empty(), files, now, 3) == module_at_time(
            context,
            config,
            read_ahead(context, files),
            now,
        ),
{
    lemma_pass_agrees_with_reading_ahead(context, config, CacheView::empty(), files, now, 3);
}

} // verus!
