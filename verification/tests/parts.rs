use aws_context::aws::alias_name;
use aws_context::aws::get_aws_profile_and_region;
use aws_context::aws::get_aws_region_from_config;
use aws_context::aws::get_config;
use aws_context::aws::get_config_file_path;
use aws_context::aws::get_credentials_duration;
use aws_context::aws::get_credentials_expiration;
use aws_context::aws::get_credentials_file_path;
use aws_context::aws::get_creds;
use aws_context::aws::get_profile_config;
use aws_context::aws::get_profile_creds;
use aws_context::aws::get_sso_cache_file_path;
use aws_context::aws::has_credential_process_or_sso;
use aws_context::aws::has_defined_credentials;
use aws_context::aws::has_source_profile;
use aws_context::aws::is_displayed;
use aws_context::aws::render_duration;
use aws_context::config::AwsConfig;
use aws_context::context::Context;
use aws_context::digest::encode_to_hex;
use aws_context::digest::sso_cache_key;
use aws_context::files::FileCache;
use aws_context::files::FileKind;
use aws_context::files::FileLocation;
use aws_context::files::FileRequest;
use aws_context::ini_file::parse_file;
use aws_context::ini_file::strip_byte_order_mark;
use aws_context::json::string_member;
use aws_context::table::Table;
use aws_context::text::bytes_eq;
use aws_context::text::str_eq;
use aws_context::time::remaining_seconds;
use aws_context::time::render_decimal;
use aws_context::time::render_time;
use aws_context::time::TIMESTAMP_LIMIT;

const CONFIG: &str = "/fixture/config";
const CREDENTIALS: &str = "/fixture/credentials";

fn context() -> Context {
    Context::new().env("AWS_CONFIG_FILE", CONFIG).env("AWS_SHARED_CREDENTIALS_FILE", CREDENTIALS)
}

fn cache(config: Option<&str>, credentials: Option<&str>) -> FileCache {
    let mut cache = FileCache::new();
    cache.provide(FileKind::Config, config.map(str::to_string));
    cache.provide(FileKind::Credentials, credentials.map(str::to_string));
    cache
}

fn name(text: &str) -> String {
    text.to_string()
}

#[test]
fn str_eq_compares_characters() {
    assert!(str_eq("", ""));
    assert!(str_eq("astronauts", "astronauts"));
    assert!(str_eq("☁️", "☁️"));
    assert!(!str_eq("astronauts", "astronaut"));
    assert!(!str_eq("astronauts", "Astronauts"));
    assert!(!str_eq("", " "));
}

#[test]
fn bytes_eq_compares_bytes() {
    assert!(bytes_eq(&[], &[]));
    assert!(bytes_eq(&[1, 2, 3], &[1, 2, 3]));
    assert!(!bytes_eq(&[1, 2, 3], &[1, 2, 4]));
    assert!(!bytes_eq(&[1, 2, 3], &[1, 2]));
}

#[test]
fn table_gives_the_latest_value_of_a_key() {
    let mut table = Table::new();
    assert_eq!(table.get("region"), None);
    table.insert(name("region"), name("us-east-1"));
    table.insert(name("output"), name("json"));
    assert_eq!(table.get("region"), Some(&name("us-east-1")));
    table.insert(name("region"), name("us-east-2"));
    assert_eq!(table.get("region"), Some(&name("us-east-2")));
    assert_eq!(table.get("output"), Some(&name("json")));
    assert_eq!(table.get("Region"), None);
}

#[test]
fn table_with_sets_a_key() {
    let table = Table::new().with("a", "1").with("b", "2").with("a", "3");
    assert_eq!(table.get("a"), Some(&name("3")));
    assert_eq!(table.get("b"), Some(&name("2")));
    assert_eq!(table.get("c"), None);
}

#[test]
fn context_remembers_variables_and_home() {
    let context = Context::new();
    assert_eq!(context.get_env("AWS_PROFILE"), None);
    assert_eq!(context.get_home(), None);
    let context = context.env("AWS_PROFILE", "astronauts").home("/home/astronaut");
    assert_eq!(context.get_env("AWS_PROFILE"), Some(name("astronauts")));
    assert_eq!(context.get_env("AWS_REGION"), None);
    assert_eq!(context.get_home(), Some(name("/home/astronaut")));
}

#[test]
fn first_env_takes_the_first_variable_that_is_set() {
    let context = Context::new().env("B", "second").env("C", "third");
    assert_eq!(context.first_env(&["A", "B", "C"]), Some(name("second")));
    assert_eq!(context.first_env(&["C", "B"]), Some(name("third")));
    assert_eq!(context.first_env(&["A"]), None);
    assert_eq!(context.first_env(&[]), None);
}

#[test]
fn config_file_path_comes_from_the_variable_or_the_home() {
    assert_eq!(get_config_file_path(&Context::new()), None);
    assert_eq!(
        get_config_file_path(&Context::new().home("/home/astronaut")),
        Some(FileLocation::UnderHome { home: name("/home/astronaut"), relative: name(".aws/config") })
    );
    assert_eq!(
        get_config_file_path(&Context::new().home("/home/astronaut").env("AWS_CONFIG_FILE", CONFIG)),
        Some(FileLocation::Path(name(CONFIG)))
    );
}

#[test]
fn empty_config_file_variable_counts_as_unset() {
    assert_eq!(
        get_config_file_path(&Context::new().home("/home/astronaut").env("AWS_CONFIG_FILE", "")),
        Some(FileLocation::UnderHome { home: name("/home/astronaut"), relative: name(".aws/config") })
    );
    assert_eq!(get_config_file_path(&Context::new().env("AWS_CONFIG_FILE", "")), None);
}

#[test]
fn credentials_file_path_prefers_the_shared_variable() {
    assert_eq!(get_credentials_file_path(&Context::new()), None);
    assert_eq!(
        get_credentials_file_path(&Context::new().home("/home/astronaut")),
        Some(FileLocation::UnderHome {
            home: name("/home/astronaut"),
            relative: name(".aws/credentials"),
        })
    );
    let both = Context::new()
        .home("/home/astronaut")
        .env("AWS_CREDENTIALS_FILE", "/second")
        .env("AWS_SHARED_CREDENTIALS_FILE", "/first");
    assert_eq!(get_credentials_file_path(&both), Some(FileLocation::Path(name("/first"))));
    let second = Context::new().env("AWS_CREDENTIALS_FILE", "/second");
    assert_eq!(get_credentials_file_path(&second), Some(FileLocation::Path(name("/second"))));
    let empty_first =
        Context::new().env("AWS_SHARED_CREDENTIALS_FILE", "").env("AWS_CREDENTIALS_FILE", "/second");
    assert_eq!(get_credentials_file_path(&empty_first), Some(FileLocation::Path(name("/second"))));
}

#[test]
fn byte_order_mark_is_no_part_of_a_file() {
    assert_eq!(strip_byte_order_mark("\u{feff}[default]"), "[default]");
    assert_eq!(strip_byte_order_mark("[default]"), "[default]");
    assert_eq!(strip_byte_order_mark(""), "");
    assert_eq!(strip_byte_order_mark("\u{feff}"), "");
    assert_eq!(strip_byte_order_mark("a\u{feff}"), "a\u{feff}");
    let file = parse_file("\u{feff}[default]\nregion = us-east-1\n").unwrap();
    assert_eq!(get_profile_config(&file, None).unwrap().get("region"), Some("us-east-1"));
}

#[test]
fn text_that_is_no_ini_file_is_no_file() {
    assert!(parse_file("[default\nregion = us-east-1\n").is_none());
    assert!(parse_file("").is_some());
}

#[test]
fn sections_are_named_differently_in_the_two_files() {
    let file = parse_file(
        "[default]\nkey = plain default\n[profile default]\nkey = prefixed default\n[astronauts]\nkey = plain\n[profile astronauts]\nkey = prefixed\n",
    )
    .unwrap();
    let astronauts = name("astronauts");
    assert_eq!(get_profile_config(&file, None).unwrap().get("key"), Some("plain default"));
    assert_eq!(get_profile_creds(&file, None).unwrap().get("key"), Some("plain default"));
    assert_eq!(get_profile_config(&file, Some(&astronauts)).unwrap().get("key"), Some("prefixed"));
    assert_eq!(get_profile_creds(&file, Some(&astronauts)).unwrap().get("key"), Some("plain"));
    let missing = name("cosmonauts");
    assert!(get_profile_config(&file, Some(&missing)).is_none());
    assert!(get_profile_creds(&file, Some(&missing)).is_none());
}

#[test]
fn the_first_of_two_sections_with_one_name_counts() {
    let file = parse_file("[default]\nregion = first\n[default]\nregion = second\n").unwrap();
    assert_eq!(get_profile_config(&file, None).unwrap().get("region"), Some("first"));
}

#[test]
fn files_are_requested_until_they_are_cached() {
    let context = context();
    let mut cache = FileCache::new();
    assert_eq!(
        get_config(&context, &cache).unwrap_err(),
        FileRequest { kind: FileKind::Config, location: FileLocation::Path(name(CONFIG)) }
    );
    assert_eq!(
        get_creds(&context, &cache).unwrap_err(),
        FileRequest { kind: FileKind::Credentials, location: FileLocation::Path(name(CREDENTIALS)) }
    );
    cache.provide(FileKind::Config, Some(name("[default]\nregion = us-east-1\n")));
    assert!(get_config(&context, &cache).unwrap().is_some());
    assert!(get_creds(&context, &cache).is_err());
    cache.provide(FileKind::Credentials, None);
    assert!(get_creds(&context, &cache).unwrap().is_none());
}

#[test]
fn a_file_without_a_place_is_no_file() {
    let nowhere = Context::new();
    let cache = FileCache::new();
    assert!(get_config(&nowhere, &cache).unwrap().is_none());
    assert!(get_creds(&nowhere, &cache).unwrap().is_none());
}

#[test]
fn a_cached_file_is_returned_as_it_is() {
    let mut cache = FileCache::new();
    cache.provide(FileKind::Config, Some(name("[default]\nregion = us-east-1\n")));
    cache.provide(FileKind::Credentials, Some(name("[default]\naws_access_key_id = k\n")));
    for context in [Context::new(), context(), Context::new().home("/home/astronaut")] {
        let config = get_config(&context, &cache).unwrap().unwrap();
        assert_eq!(get_profile_config(config, None).unwrap().get("region"), Some("us-east-1"));
        let credentials = get_creds(&context, &cache).unwrap().unwrap();
        assert!(get_profile_creds(credentials, None).unwrap().contains_key("aws_access_key_id"));
    }
}

#[test]
fn the_first_text_of_a_file_stays() {
    let context = context();
    let mut cache = FileCache::new();
    assert!(!cache.is_loaded(FileKind::Config));
    cache.provide(FileKind::Config, Some(name("[default]\nregion = first\n")));
    assert!(cache.is_loaded(FileKind::Config));
    assert!(!cache.is_loaded(FileKind::Credentials));
    assert!(!cache.is_loaded(FileKind::SsoCache));
    cache.provide(FileKind::Config, Some(name("[default]\nregion = second\n")));
    cache.provide(FileKind::Config, None);
    assert_eq!(get_aws_region_from_config(&context, &None, &cache), Ok(Some(name("first"))));
    cache.provide(FileKind::SsoCache, None);
    cache.provide(FileKind::SsoCache, Some(name("{}")));
    assert!(cache.is_loaded(FileKind::SsoCache));
}

#[test]
fn unreadable_and_unparseable_files_are_no_data() {
    let context = context();
    assert_eq!(get_aws_region_from_config(&context, &None, &cache(None, None)), Ok(None));
    assert_eq!(
        get_aws_region_from_config(&context, &None, &cache(Some("[default\nregion"), None)),
        Ok(None)
    );
}

#[test]
fn region_is_looked_up_in_the_section_of_the_profile() {
    let context = context();
    let cache = cache(
        Some("[default]\nregion = us-east-1\n[profile astronauts]\nregion = us-east-2\n[profile quiet]\noutput = json\n"),
        None,
    );
    assert_eq!(get_aws_region_from_config(&context, &None, &cache), Ok(Some(name("us-east-1"))));
    assert_eq!(
        get_aws_region_from_config(&context, &Some(name("astronauts")), &cache),
        Ok(Some(name("us-east-2")))
    );
    assert_eq!(get_aws_region_from_config(&context, &Some(name("quiet")), &cache), Ok(None));
    assert_eq!(get_aws_region_from_config(&context, &Some(name("default")), &cache), Ok(None));
}

#[test]
fn both_from_the_environment_need_no_file() {
    let context = context().env("AWS_PROFILE", "astronauts").env("AWS_REGION", "ap-northeast-2");
    assert_eq!(
        get_aws_profile_and_region(&context, &FileCache::new()),
        Ok((Some(name("astronauts")), Some(name("ap-northeast-2"))))
    );
}

#[test]
fn region_alone_needs_no_file() {
    let context = context().env("AWS_DEFAULT_REGION", "ap-northeast-1");
    assert_eq!(
        get_aws_profile_and_region(&context, &FileCache::new()),
        Ok((None, Some(name("ap-northeast-1"))))
    );
}

#[test]
fn profile_alone_takes_its_region_from_the_config_file() {
    let context = context().env("AWS_PROFILE", "astronauts");
    assert_eq!(
        get_aws_profile_and_region(&context, &FileCache::new()),
        Err(FileRequest { kind: FileKind::Config, location: FileLocation::Path(name(CONFIG)) })
    );
    let cache = cache(Some("[default]\nregion = us-east-1\n[profile astronauts]\nregion = us-east-2\n"), None);
    assert_eq!(
        get_aws_profile_and_region(&context, &cache),
        Ok((Some(name("astronauts")), Some(name("us-east-2"))))
    );
}

#[test]
fn neither_takes_the_region_of_the_default_section() {
    let cache = cache(Some("[default]\nregion = us-east-1\n[profile default]\nregion = us-east-2\n"), None);
    assert_eq!(get_aws_profile_and_region(&context(), &cache), Ok((None, Some(name("us-east-1")))));
    assert_eq!(get_aws_profile_and_region(&context(), &self::cache(None, None)), Ok((None, None)));
}

#[test]
fn profile_variables_are_asked_in_order() {
    let all = Context::new()
        .env("AWS_SSO_PROFILE", "e")
        .env("AWS_PROFILE", "d")
        .env("AWSUME_PROFILE", "c")
        .env("AWS_VAULT", "b")
        .env("AWSU_PROFILE", "a")
        .env("AWS_REGION", "r");
    let cache = FileCache::new();
    assert_eq!(get_aws_profile_and_region(&all, &cache).unwrap().0, Some(name("a")));
    let from_vault = Context::new()
        .env("AWS_SSO_PROFILE", "e")
        .env("AWS_PROFILE", "d")
        .env("AWSUME_PROFILE", "c")
        .env("AWS_VAULT", "b")
        .env("AWS_REGION", "r");
    assert_eq!(get_aws_profile_and_region(&from_vault, &cache).unwrap().0, Some(name("b")));
    let from_awsume = Context::new()
        .env("AWS_SSO_PROFILE", "e")
        .env("AWS_PROFILE", "d")
        .env("AWSUME_PROFILE", "c")
        .env("AWS_REGION", "r");
    assert_eq!(get_aws_profile_and_region(&from_awsume, &cache).unwrap().0, Some(name("c")));
    let plain = Context::new().env("AWS_SSO_PROFILE", "e").env("AWS_PROFILE", "d").env("AWS_REGION", "r");
    assert_eq!(get_aws_profile_and_region(&plain, &cache).unwrap().0, Some(name("d")));
}

#[test]
fn alias_is_given_for_the_exact_name_only() {
    let aliases = Table::new().with("ap-southeast-2", "au").with("us-east-1", "va");
    assert_eq!(alias_name(Some(name("ap-southeast-2")), &aliases), Some(name("au")));
    assert_eq!(alias_name(Some(name("ap-southeast-22")), &aliases), Some(name("ap-southeast-22")));
    assert_eq!(alias_name(Some(name("AP-SOUTHEAST-2")), &aliases), Some(name("AP-SOUTHEAST-2")));
    assert_eq!(alias_name(Some(name("au")), &aliases), Some(name("au")));
    assert_eq!(alias_name(None, &aliases), None);
    assert_eq!(alias_name(Some(name("")), &Table::new().with("", "nameless")), Some(name("nameless")));
}

#[test]
fn marker_in_the_config_section_is_enough() {
    let context = context();
    for key in ["credential_process", "sso_session", "sso_start_url"] {
        let cache = cache(Some(&format!("[default]\n{key} = value\n")), None);
        assert_eq!(has_credential_process_or_sso(&context, None, &cache), Ok(Some(true)));
    }
}

#[test]
fn marker_in_the_credentials_section_is_enough() {
    let context = context();
    for key in ["credential_process", "sso_start_url"] {
        let cache = cache(Some("[default]\nregion = us-east-1\n"), Some(&format!("[default]\n{key} = value\n")));
        assert_eq!(has_credential_process_or_sso(&context, None, &cache), Ok(Some(true)));
        let cache = self::cache(Some(""), Some(&format!("[default]\n{key} = value\n")));
        assert_eq!(has_credential_process_or_sso(&context, None, &cache), Ok(Some(true)));
    }
    let cache = cache(Some(""), Some("[default]\nsso_session = value\n"));
    assert_eq!(has_credential_process_or_sso(&context, None, &cache), Ok(Some(false)));
}

#[test]
fn marker_cannot_be_told_without_sections() {
    let context = context();
    assert_eq!(has_credential_process_or_sso(&context, None, &cache(None, None)), Ok(None));
    assert_eq!(has_credential_process_or_sso(&context, None, &cache(Some(""), None)), Ok(None));
    assert_eq!(has_credential_process_or_sso(&context, None, &cache(Some(""), Some(""))), Ok(None));
    assert_eq!(has_credential_process_or_sso(&context, None, &cache(None, Some(""))), Ok(None));
    let other = "[astronauts]\ncredential_process = value\n";
    assert_eq!(has_credential_process_or_sso(&context, None, &cache(None, Some(other))), Ok(None));
}

#[test]
fn marker_in_the_credentials_file_counts_without_a_config_file() {
    let context = context();
    let astronauts = name("astronauts");
    for key in ["credential_process", "sso_start_url"] {
        let markers = format!("[default]\n{key} = value\n[astronauts]\n{key} = value\n");
        for config in [None, Some("[default\nregion"), Some("")] {
            let cache = cache(config, Some(&markers));
            assert_eq!(has_credential_process_or_sso(&context, None, &cache), Ok(Some(true)));
            assert_eq!(
                has_credential_process_or_sso(&context, Some(&astronauts), &cache),
                Ok(Some(true))
            );
        }
    }
    let unmarked = cache(None, Some("[default]\nsso_session = value\naws_access_key_id = k\n"));
    assert_eq!(has_credential_process_or_sso(&context, None, &unmarked), Ok(Some(false)));
    let nowhere = Context::new().env("AWS_SHARED_CREDENTIALS_FILE", CREDENTIALS);
    let mut cache = FileCache::new();
    assert_eq!(
        has_credential_process_or_sso(&nowhere, None, &cache).unwrap_err().kind,
        FileKind::Credentials
    );
    cache.provide(FileKind::Credentials, Some(name("[default]\ncredential_process = value\n")));
    assert_eq!(has_credential_process_or_sso(&nowhere, None, &cache), Ok(Some(true)));
}

#[test]
fn marker_asks_for_the_config_file_and_then_the_credentials_file() {
    let context = context();
    let mut cache = FileCache::new();
    assert_eq!(has_credential_process_or_sso(&context, None, &cache).unwrap_err().kind, FileKind::Config);
    cache.provide(FileKind::Config, Some(name("[default]\ncredential_process = value\n")));
    assert_eq!(
        has_credential_process_or_sso(&context, None, &cache).unwrap_err().kind,
        FileKind::Credentials
    );
    cache.provide(FileKind::Credentials, None);
    assert_eq!(has_credential_process_or_sso(&context, None, &cache), Ok(Some(true)));
}

#[test]
fn credentials_in_the_environment_need_no_file() {
    for variable in ["AWS_ACCESS_KEY_ID", "AWS_SECRET_ACCESS_KEY", "AWS_SESSION_TOKEN"] {
        let context = context().env(variable, "dummy");
        assert_eq!(has_defined_credentials(&context, None, &FileCache::new()), Ok(Some(true)));
    }
}

#[test]
fn credentials_in_the_file_need_an_access_key() {
    let context = context();
    let astronauts = name("astronauts");
    let cache = cache(None, Some("[astronauts]\naws_access_key_id = dummy\n[default]\naws_secret_access_key = dummy\n"));
    assert_eq!(has_defined_credentials(&context, Some(&astronauts), &cache), Ok(Some(true)));
    assert_eq!(has_defined_credentials(&context, None, &cache), Ok(Some(false)));
    assert_eq!(has_defined_credentials(&context, Some(&name("cosmonauts")), &cache), Ok(None));
    assert_eq!(has_defined_credentials(&context, None, &self::cache(None, None)), Ok(None));
    assert_eq!(
        has_defined_credentials(&context, None, &FileCache::new()).unwrap_err().kind,
        FileKind::Credentials
    );
}

#[test]
fn source_profile_is_followed_one_step() {
    let context = context();
    let astronauts = name("astronauts");
    let config = "[profile astronauts]\nsource_profile = starship\n[profile starship]\nsource_profile = base\n[profile base]\ncredential_process = value\n";
    assert_eq!(
        has_source_profile(&context, Some(&astronauts), &cache(Some(config), Some(""))),
        Ok(Some(false))
    );
    assert_eq!(
        has_source_profile(&context, Some(&name("starship")), &cache(Some(config), Some(""))),
        Ok(Some(true))
    );
    let credentials = "[starship]\naws_access_key_id = dummy\n";
    assert_eq!(
        has_source_profile(&context, Some(&astronauts), &cache(Some(config), Some(credentials))),
        Ok(Some(true))
    );
}

#[test]
fn profile_without_source_profile_has_no_answer() {
    let context = context();
    let config = "[default]\ncredential_process = value\n[profile astronauts]\nregion = us-east-2\n";
    let cache = cache(Some(config), Some("[default]\naws_access_key_id = dummy\n"));
    assert_eq!(has_source_profile(&context, Some(&name("astronauts")), &cache), Ok(None));
    assert_eq!(has_source_profile(&context, None, &cache), Ok(None));
    assert_eq!(has_source_profile(&context, Some(&name("cosmonauts")), &cache), Ok(None));
    assert_eq!(has_source_profile(&context, None, &self::cache(None, None)), Ok(None));
}

#[test]
fn forced_display_asks_for_no_file() {
    let forced = AwsConfig { force_display: true, ..AwsConfig::default() };
    assert_eq!(is_displayed(&context(), &forced, None, &FileCache::new()), Ok(true));
    assert_eq!(
        is_displayed(&context(), &AwsConfig::default(), None, &FileCache::new()).unwrap_err().kind,
        FileKind::Config
    );
}

#[test]
fn display_needs_some_credentials() {
    let config = AwsConfig::default();
    let astronauts = name("astronauts");
    assert_eq!(is_displayed(&context(), &config, Some(&astronauts), &cache(None, None)), Ok(false));
    assert_eq!(
        is_displayed(&context().env("AWS_SESSION_TOKEN", "dummy"), &config, Some(&astronauts), &cache(None, None)),
        Ok(true)
    );
    assert_eq!(
        is_displayed(&context(), &config, Some(&astronauts), &cache(Some("[profile astronauts]\nsso_session = s\n"), None)),
        Ok(true)
    );
    assert_eq!(
        is_displayed(
            &context(),
            &config,
            Some(&astronauts),
            &cache(Some("[profile astronauts]\nsource_profile = starship\n"), Some("[starship]\naws_access_key_id = k\n"))
        ),
        Ok(true)
    );
}

#[test]
fn default_options() {
    let config = AwsConfig::default();
    assert_eq!(config.format, "on [$symbol($profile )(\\($region\\) )(\\[$duration\\] )]($style)");
    assert_eq!(config.symbol, "☁️  ");
    assert_eq!(config.style, "bold yellow");
    assert!(!config.force_display);
    assert_eq!(config.expiration_symbol, "X");
    assert_eq!(config.region_aliases.get("us-east-1"), None);
    assert_eq!(config.profile_aliases.get("astronauts"), None);
}

#[test]
fn hex_is_lower_case_and_two_digits_a_byte() {
    assert_eq!(encode_to_hex(&[]), "");
    assert_eq!(encode_to_hex(&[0x00, 0x0f, 0xa5, 0xff, 0x10]), "000fa5ff10");
    assert_eq!(encode_to_hex(&[0x01, 0x23, 0x45, 0x67, 0x89, 0xab, 0xcd, 0xef]), "0123456789abcdef");
}

#[test]
fn cache_key_is_the_sha1_of_the_start_url() {
    assert_eq!(sso_cache_key("https://starship.rs/sso"), "a47a4e57aecc96b31b4f083543924bd6f828e65a");
    assert_eq!(sso_cache_key(""), "da39a3ee5e6b4b0d3255bfef95601890afd80709");
    assert_eq!(sso_cache_key("abc"), "a9993e364706816aba3e25717850c26c9cd0d89d");
}

#[test]
fn sso_cache_file_lies_below_the_home() {
    let config = parse_file("[default]\nsso_start_url = https://starship.rs/sso\n[profile quiet]\nregion = r\n").unwrap();
    let home = Context::new().home("/home/astronaut");
    assert_eq!(
        get_sso_cache_file_path(&home, Some(&config), None),
        Some(FileLocation::UnderHome {
            home: name("/home/astronaut"),
            relative: name(".aws/sso/cache/a47a4e57aecc96b31b4f083543924bd6f828e65a.json"),
        })
    );
    assert_eq!(get_sso_cache_file_path(&Context::new(), Some(&config), None), None);
    assert_eq!(get_sso_cache_file_path(&home, Some(&config), Some(&name("quiet"))), None);
    assert_eq!(get_sso_cache_file_path(&home, Some(&config), Some(&name("missing"))), None);
    assert_eq!(get_sso_cache_file_path(&home, None, None), None);
}

#[test]
fn string_member_reads_strings_of_objects_only() {
    assert_eq!(string_member(r#"{"expiresAt": "soon", "n": 1}"#, "expiresAt"), Some(name("soon")));
    assert_eq!(string_member(r#"{"expiresAt": "soon"}"#, "expiresAt"), Some(name("soon")));
    assert_eq!(string_member(r#"{"expiresAt": "soon", "n": 1}"#, "n"), None);
    assert_eq!(string_member(r#"{"expiresAt": "soon"}"#, "expiresat"), None);
    assert_eq!(string_member(r#"{"expiresAt": null}"#, "expiresAt"), None);
    assert_eq!(string_member(r#"["expiresAt"]"#, "expiresAt"), None);
    assert_eq!(string_member(r#""expiresAt""#, "expiresAt"), None);
    assert_eq!(string_member(r#"{"expiresAt": "soon""#, "expiresAt"), None);
    assert_eq!(string_member("", "expiresAt"), None);
}

#[test]
fn decimal_has_no_leading_zeros() {
    assert_eq!(render_decimal(0), "0");
    assert_eq!(render_decimal(7), "7");
    assert_eq!(render_decimal(10), "10");
    assert_eq!(render_decimal(1234567890), "1234567890");
    assert_eq!(render_decimal(u128::MAX), "340282366920938463463374607431768211455");
}

#[test]
fn time_starts_with_the_largest_unit_that_is_not_zero() {
    assert_eq!(render_time(1_800_000, false), "30m0s");
    assert_eq!(render_time(1_799_000, false), "29m59s");
    assert_eq!(render_time(1_000, false), "1s");
    assert_eq!(render_time(59_999, false), "59s");
    assert_eq!(render_time(60_000, false), "1m0s");
    assert_eq!(render_time(90_000, false), "1m30s");
    assert_eq!(render_time(3_600_000, false), "1h0m0s");
    assert_eq!(render_time(86_400_000, false), "1d0h0m0s");
    assert_eq!(render_time(90_061_000, false), "1d1h1m1s");
    assert_eq!(render_time(100 * 86_400_000 + 23 * 3_600_000, false), "100d23h0m0s");
}

#[test]
fn time_under_a_second() {
    assert_eq!(render_time(0, false), "0s");
    assert_eq!(render_time(999, false), "0s");
    assert_eq!(render_time(0, true), "0ms");
    assert_eq!(render_time(500, true), "500ms");
}

#[test]
fn time_with_milliseconds() {
    assert_eq!(render_time(10_110, true), "10s110ms");
    assert_eq!(render_time(1_000, true), "1s0ms");
    assert_eq!(render_time(90_061_001, true), "1d1h1m1s1ms");
}

#[test]
fn duration_is_the_time_left_or_the_symbol() {
    let config = AwsConfig { expiration_symbol: name("!!!"), ..AwsConfig::default() };
    assert_eq!(render_duration(&config, 1800), "30m0s");
    assert_eq!(render_duration(&config, 1), "1s");
    assert_eq!(render_duration(&config, 0), "!!!");
    assert_eq!(render_duration(&config, -1), "!!!");
    assert_eq!(render_duration(&config, -1800), "!!!");
    assert_eq!(render_duration(&config, i64::MAX), "106751991167300d15h30m7s");
    assert_eq!(render_duration(&AwsConfig::default(), i64::MIN), "X");
}

#[test]
fn remaining_seconds_is_the_difference() {
    assert_eq!(remaining_seconds(1_700_001_800, 1_700_000_000), 1800);
    assert_eq!(remaining_seconds(1_700_000_000, 1_700_001_800), -1800);
    assert_eq!(remaining_seconds(5, 5), 0);
    assert_eq!(remaining_seconds(TIMESTAMP_LIMIT - 1, 1 - TIMESTAMP_LIMIT), 2 * TIMESTAMP_LIMIT - 2);
}

#[test]
fn expiration_from_the_environment() {
    let context = context().env("AWS_SESSION_EXPIRATION", "2023-11-14T22:13:20Z");
    assert_eq!(get_credentials_expiration(&context, None, &FileCache::new()), Ok(Some(1_700_000_000)));
    let with_zone = context.clone().env("AWS_CREDENTIAL_EXPIRATION", "2023-11-14T23:13:20+01:00");
    assert_eq!(get_credentials_expiration(&with_zone, None, &FileCache::new()), Ok(Some(1_700_000_000)));
    let first_wins = context
        .env("AWSUME_EXPIRATION", "1970-01-01T00:00:00Z")
        .env("AWS_CREDENTIAL_EXPIRATION", "1970-01-01T00:00:01Z");
    assert_eq!(get_credentials_expiration(&first_wins, None, &FileCache::new()), Ok(Some(1)));
}

#[test]
fn expiration_from_the_credentials_file() {
    let astronauts = name("astronauts");
    let credentials = "[astronauts]\nx_security_token_expires = 1970-01-01T00:00:02Z\nexpiration = 1970-01-01T00:00:01Z\n[default]\nx_security_token_expires = 1970-01-01T00:00:03Z\n";
    let cache = cache(None, Some(credentials));
    assert_eq!(get_credentials_expiration(&context(), Some(&astronauts), &cache), Ok(Some(1)));
    assert_eq!(get_credentials_expiration(&context(), None, &cache), Ok(Some(3)));
    assert_eq!(get_credentials_expiration(&context(), Some(&name("cosmonauts")), &cache), Ok(None));
}

#[test]
fn a_source_without_a_timestamp_gives_way_to_the_next() {
    let unreadable = context().home("/home/astronaut").env("AWS_SESSION_EXPIRATION", "tomorrow");
    let mut cache = FileCache::new();
    assert_eq!(
        get_credentials_expiration(&unreadable, None, &cache).unwrap_err().kind,
        FileKind::Credentials
    );
    cache.provide(FileKind::Credentials, Some(name("[default]\nexpiration = next week\n")));
    assert_eq!(get_credentials_expiration(&unreadable, None, &cache).unwrap_err().kind, FileKind::Config);
    cache.provide(FileKind::Config, Some(name("[default]\nsso_start_url = https://starship.rs/sso\n")));
    assert_eq!(
        get_credentials_expiration(&unreadable, None, &cache),
        Err(FileRequest {
            kind: FileKind::SsoCache,
            location: FileLocation::UnderHome {
                home: name("/home/astronaut"),
                relative: name(".aws/sso/cache/a47a4e57aecc96b31b4f083543924bd6f828e65a.json"),
            },
        })
    );
    cache.provide(FileKind::SsoCache, Some(name(r#"{"expiresAt": "1970-01-01T00:00:04Z"}"#)));
    assert_eq!(get_credentials_expiration(&unreadable, None, &cache), Ok(Some(4)));
}

#[test]
fn a_credentials_file_with_a_timestamp_decides_before_the_sso_cache() {
    let mut cache = cache(
        Some("[default]\nsso_start_url = https://starship.rs/sso\n"),
        Some("[default]\nexpiration = 1970-01-01T00:00:05Z\n"),
    );
    cache.provide(FileKind::SsoCache, Some(name(r#"{"expiresAt": "1970-01-01T00:00:04Z"}"#)));
    assert_eq!(get_credentials_expiration(&context().home("/home/astronaut"), None, &cache), Ok(Some(5)));
}

#[test]
fn sso_cache_that_cannot_be_used_gives_no_expiration() {
    let context = context().home("/home/astronaut");
    let config = "[default]\nsso_start_url = https://starship.rs/sso\n";
    for text in [None, Some("{"), Some("{}"), Some(r#"{"expiresAt": 4}"#), Some(r#"{"expiresAt": "later"}"#)] {
        let mut cache = cache(Some(config), None);
        cache.provide(FileKind::SsoCache, text.map(str::to_string));
        assert_eq!(get_credentials_expiration(&context, None, &cache), Ok(None));
    }
    assert_eq!(get_credentials_expiration(&context, None, &cache(Some("[default]\nregion = r\n"), None)), Ok(None));
    assert_eq!(
        get_credentials_expiration(&self::context(), None, &cache(Some(config), None)),
        Ok(None)
    );
}

#[test]
fn duration_at_a_given_time() {
    let context = context().env("AWS_SESSION_EXPIRATION", "2023-11-14T22:13:20Z");
    let cache = FileCache::new();
    assert_eq!(get_credentials_duration(&context, None, &cache, 1_700_000_000 - 1800), Ok(Some(1800)));
    assert_eq!(get_credentials_duration(&context, None, &cache, 1_700_000_000), Ok(Some(0)));
    assert_eq!(get_credentials_duration(&context, None, &cache, 1_700_000_000 + 1), Ok(Some(-1)));
    assert_eq!(get_credentials_duration(&self::context(), None, &self::cache(None, None), 0), Ok(None));
}

#[test]
fn duration_by_the_clock() {
    let expiry = chrono::Local::now().timestamp() + 1800;
    let text = chrono::DateTime::from_timestamp(expiry, 0).unwrap().to_rfc3339();
    let context = context().env("AWS_SESSION_EXPIRATION", &text);
    let now = chrono::Local::now().timestamp();
    assert!(-TIMESTAMP_LIMIT < now && now < TIMESTAMP_LIMIT);
    let duration = get_credentials_duration(&context, None, &FileCache::new(), now).unwrap().unwrap();
    assert!((1795..=1800).contains(&duration), "time is not in range: {duration}");
    assert_eq!(get_credentials_duration(&self::context(), None, &cache(None, None), now), Ok(None));
}
