use oxide_cli::config::Config;
use oxide_cli::config_from_file::{FileConfig, Source};
use oxide_cli::config_map::ConfigMap;
use oxide_cli::error::ConfigError;

const CONFIG: &str = "# general settings\norganization = \"other\"   # the org\neditor = 'vi'\n\n# short names\n[aliases]\nco = \"pr checkout\"\n";

const HOSTS: &str = "# the hosts\n[h1]\ntoken = \"abc\"   # secret\nuser = \"me\"\n\n[h2]\ntoken = \"def\"\ndefault = \"true\"\n";

fn config_with_hosts(hosts: &str) -> FileConfig {
    FileConfig::from_files("", hosts).unwrap()
}

#[test]
fn round_trip_without_edits() {
    let config = FileConfig::from_files(CONFIG, HOSTS).unwrap();
    assert_eq!(config.config_to_string().unwrap(), CONFIG.trim());
    assert_eq!(config.hosts_to_string().unwrap(), HOSTS.trim());
    let (c, h) = config.to_files().unwrap();
    assert_eq!(c, CONFIG.trim());
    assert_eq!(h, HOSTS.trim());
}

#[test]
fn round_trip_drops_only_outer_whitespace() {
    let config = FileConfig::from_files("\n\n  a = \"1\"  \n\n", "").unwrap();
    assert_eq!(config.config_to_string().unwrap(), "a = \"1\"");
    assert_eq!(config.hosts_to_string().unwrap(), "");
}

#[test]
fn round_trip_of_a_map_that_was_never_split() {
    let config = FileConfig { map: ConfigMap::parse(CONFIG).unwrap() };
    assert_eq!(config.config_to_string().unwrap(), CONFIG.trim());
    assert_eq!(config.hosts_to_string().unwrap(), "");
}

#[test]
fn from_files_refuses_invalid_text() {
    assert!(matches!(FileConfig::from_files("a = ", ""), Err(ConfigError::MalformedConfig)));
    assert!(matches!(FileConfig::from_files("", "[h1"), Err(ConfigError::MalformedConfig)));
}

#[test]
fn single_host_is_the_default() {
    let config = config_with_hosts("[h1]\ntoken = \"abc\"\n");
    assert_eq!(config.default_host(), Ok("h1".to_string()));
    assert_eq!(config.default_host_with_source(), Ok(("h1".to_string(), Source::HostsFile)));
}

#[test]
fn single_host_without_settings_is_the_default() {
    let config = config_with_hosts("[h1]\n");
    assert_eq!(config.default_host(), Ok("h1".to_string()));
}

#[test]
fn several_hosts_need_a_default() {
    let config = config_with_hosts("[h1]\ntoken = \"abc\"\n\n[h2]\ntoken = \"def\"\n");
    assert_eq!(config.default_host(), Err(ConfigError::NoDefaultHost));
    assert_eq!(config.default_host_with_source(), Err(ConfigError::NoDefaultHost));
}

#[test]
fn marked_host_is_the_default() {
    let config = FileConfig::from_files(CONFIG, HOSTS).unwrap();
    assert_eq!(config.default_host(), Ok("h2".to_string()));
}

#[test]
fn first_marked_host_wins() {
    let config = config_with_hosts(
        "[h1]\ntoken = \"a\"\n\n[h2]\ndefault = \"true\"\n\n[h3]\ndefault = \"true\"\n",
    );
    assert_eq!(config.default_host(), Ok("h2".to_string()));
}

#[test]
fn only_the_string_true_marks_a_default() {
    let config = config_with_hosts(
        "[h1]\ndefault = true\n\n[h2]\ndefault = \"yes\"\n\n[h3]\ndefault = \"True\"\n",
    );
    assert_eq!(config.default_host(), Err(ConfigError::NoDefaultHost));
}

#[test]
fn no_hosts_no_default() {
    let config = FileConfig::new();
    assert_eq!(config.default_host(), Err(ConfigError::NoHostsConfigured));
    let config = FileConfig::from_files(CONFIG, "").unwrap();
    assert_eq!(config.default_host(), Err(ConfigError::NoHostsConfigured));
}

#[test]
fn set_creates_host() {
    let mut config = FileConfig::new();
    assert_eq!(config.set("newhost", "token", "abc"), Ok(()));
    assert_eq!(config.get("newhost", "token"), Ok("abc".to_string()));
    assert_eq!(config.hosts(), Ok(vec!["newhost".to_string()]));
    assert_eq!(config.hosts_to_string().unwrap(), "[newhost]\ntoken = \"abc\"");
    assert_eq!(config.config_to_string().unwrap(), "");
}

#[test]
fn set_writes_back_into_an_existing_host() {
    let mut config = FileConfig::from_files(CONFIG, HOSTS).unwrap();
    config.set("h1", "token", "xyz").unwrap();
    config.set("h1", "region", "west").unwrap();
    assert_eq!(config.get("h1", "token"), Ok("xyz".to_string()));
    assert_eq!(config.get("h1", "region"), Ok("west".to_string()));
    assert_eq!(config.get("h1", "user"), Ok("me".to_string()));
    assert_eq!(config.get("h2", "token"), Ok("def".to_string()));
    assert_eq!(config.hosts(), Ok(vec!["h1".to_string(), "h2".to_string()]));
    assert_eq!(config.config_to_string().unwrap(), CONFIG.trim());
}

#[test]
fn set_adds_a_host_after_the_others() {
    let mut config = FileConfig::from_files(CONFIG, HOSTS).unwrap();
    config.set("h3", "token", "ghi").unwrap();
    assert_eq!(
        config.hosts(),
        Ok(vec!["h1".to_string(), "h2".to_string(), "h3".to_string()])
    );
    let text = config.hosts_to_string().unwrap();
    assert!(text.starts_with(HOSTS.trim()));
    assert!(text.ends_with("[h3]\ntoken = \"ghi\""));
}

#[test]
fn set_at_the_root() {
    let mut config = FileConfig::from_files(CONFIG, HOSTS).unwrap();
    config.set("", "organization", "acme").unwrap();
    config.set("", "pager", "less").unwrap();
    assert_eq!(config.get("", "organization"), Ok("acme".to_string()));
    assert_eq!(config.get("", "pager"), Ok("less".to_string()));
    assert_eq!(config.hosts_to_string().unwrap(), HOSTS.trim());
    let text = config.config_to_string().unwrap();
    assert!(text.contains("organization = \"acme\""));
    assert!(text.contains("editor = 'vi'"));
    assert!(text.contains("# short names\n[aliases]\nco = \"pr checkout\""));
}

#[test]
fn root_keys_and_host_keys_are_apart() {
    let mut config = FileConfig::new();
    config.set("", "token", "root").unwrap();
    config.set("h1", "token", "host").unwrap();
    assert_eq!(config.get("", "token"), Ok("root".to_string()));
    assert_eq!(config.get("h1", "token"), Ok("host".to_string()));
    assert_eq!(config.get("h1", "organization"), Err(ConfigError::KeyNotFound));
}

#[test]
fn get_with_source_names_the_file() {
    let config = FileConfig::from_files(CONFIG, HOSTS).unwrap();
    assert_eq!(
        config.get_with_source("", "organization"),
        Ok(("other".to_string(), Source::ConfigFile))
    );
    assert_eq!(
        config.get_with_source("h1", "token"),
        Ok(("abc".to_string(), Source::HostsFile))
    );
}

#[test]
fn get_reports_each_failure() {
    let config = FileConfig::from_files(CONFIG, HOSTS).unwrap();
    assert_eq!(config.get("", "nothing"), Err(ConfigError::KeyNotFound));
    assert_eq!(config.get("", "aliases"), Err(ConfigError::TypeMismatch));
    assert_eq!(config.get("h9", "token"), Err(ConfigError::HostNotFound));
    assert_eq!(config.get("h1", "nothing"), Err(ConfigError::KeyNotFound));
    assert_eq!(config.get("H1", "token"), Err(ConfigError::HostNotFound));
}

#[test]
fn hosts_that_is_no_table_is_malformed() {
    let mut config = FileConfig { map: ConfigMap::parse("hosts = \"h1\"\n").unwrap() };
    assert!(matches!(config.get_hosts_table(), Err(ConfigError::MalformedConfig)));
    assert_eq!(config.hosts(), Err(ConfigError::MalformedConfig));
    assert_eq!(config.default_host(), Err(ConfigError::MalformedConfig));
    assert_eq!(config.get("h1", "token"), Err(ConfigError::MalformedConfig));
    assert_eq!(config.set("h1", "token", "abc"), Err(ConfigError::MalformedConfig));
    assert_eq!(config.unset_host("h1"), Err(ConfigError::MalformedConfig));
    assert!(matches!(config.hosts_to_string(), Err(ConfigError::MalformedConfig)));
    assert!(matches!(config.make_host_config("h1"), Err(ConfigError::MalformedConfig)));
    assert_eq!(config.map.to_text(), "hosts = \"h1\"\n");
    assert_eq!(config.get("", "hosts"), Ok("h1".to_string()));
}

#[test]
fn host_that_is_no_table_is_malformed() {
    let mut config = config_with_hosts("h0 = \"text\"\n\n[h1]\ntoken = \"abc\"\n");
    assert_eq!(config.hosts(), Ok(vec!["h0".to_string(), "h1".to_string()]));
    assert!(matches!(config.get_host_entries(), Err(ConfigError::MalformedConfig)));
    assert!(matches!(config.get_host_config("h1"), Err(ConfigError::MalformedConfig)));
    assert_eq!(config.get("h1", "token"), Err(ConfigError::MalformedConfig));
    assert_eq!(config.set("h1", "token", "x"), Err(ConfigError::MalformedConfig));
    assert_eq!(config.default_host(), Err(ConfigError::MalformedConfig));
}

#[test]
fn aliases_that_is_no_table_is_malformed() {
    let config = FileConfig { map: ConfigMap::parse("aliases = 3\n").unwrap() };
    assert!(matches!(config.get_aliases_table(), Err(ConfigError::MalformedConfig)));
    assert!(matches!(config.aliases(), Err(ConfigError::MalformedConfig)));
}

#[test]
fn missing_sections_are_empty() {
    let config = FileConfig::new();
    assert!(config.get_hosts_table().unwrap().is_empty());
    assert!(config.get_aliases_table().unwrap().is_empty());
    assert_eq!(config.hosts(), Ok(Vec::new()));
    assert!(config.get_host_entries().unwrap().is_empty());
}

#[test]
fn host_entries_carry_name_and_settings() {
    let config = FileConfig::from_files(CONFIG, HOSTS).unwrap();
    let entries = config.get_host_entries().unwrap();
    assert_eq!(entries.len(), 2);
    assert_eq!(entries[0].host, "h1");
    assert_eq!(entries[0].map.get_string_value("user"), Ok("me".to_string()));
    assert_eq!(entries[1].host, "h2");
    assert_eq!(entries[1].map.get_string_value("default"), Ok("true".to_string()));
}

#[test]
fn host_config_is_found_by_exact_name() {
    let config = FileConfig::from_files(CONFIG, HOSTS).unwrap();
    let found = config.get_host_config("h2").unwrap();
    assert_eq!(found.host, "h2");
    assert_eq!(found.map.get_string_value("token"), Ok("def".to_string()));
    assert!(matches!(config.get_host_config("h"), Err(ConfigError::HostNotFound)));
    assert!(matches!(config.get_host_config(""), Err(ConfigError::HostNotFound)));
}

#[test]
fn make_host_config_does_not_touch_the_document() {
    let config = FileConfig::from_files(CONFIG, HOSTS).unwrap();
    let made = config.make_host_config("h3").unwrap();
    assert_eq!(made.host, "h3");
    assert!(made.map.is_empty());
    assert_eq!(config.hosts(), Ok(vec!["h1".to_string(), "h2".to_string()]));
    assert_eq!(config.hosts_to_string().unwrap(), HOSTS.trim());
}

#[test]
fn sub_views_are_copies() {
    let config = FileConfig::from_files(CONFIG, HOSTS).unwrap();
    let mut hosts = config.get_hosts_table().unwrap();
    hosts.remove_entry("h1").unwrap();
    assert_eq!(config.hosts(), Ok(vec!["h1".to_string(), "h2".to_string()]));
    let mut entry = config.get_host_config("h1").unwrap();
    entry.map.set_string_value("token", "changed").unwrap();
    assert_eq!(config.get("h1", "token"), Ok("abc".to_string()));
}

#[test]
fn unset_missing_host_changes_nothing() {
    let mut config = FileConfig::from_files(CONFIG, HOSTS).unwrap();
    assert_eq!(config.unset_host("ghost"), Ok(()));
    assert_eq!(config.hosts(), Ok(vec!["h1".to_string(), "h2".to_string()]));
    assert_eq!(config.hosts_to_string().unwrap(), HOSTS.trim());
    assert_eq!(config.config_to_string().unwrap(), CONFIG.trim());
}

#[test]
fn unset_on_a_config_without_hosts() {
    let mut config = FileConfig::new();
    assert_eq!(config.unset_host("ghost"), Ok(()));
    assert_eq!(config.hosts(), Ok(Vec::new()));
    assert_eq!(config.unset_host("ghost"), Ok(()));
    assert_eq!(config.hosts(), Ok(Vec::new()));
}

#[test]
fn unset_with_empty_name_changes_nothing() {
    let mut config = FileConfig { map: ConfigMap::parse("hosts = 1\n").unwrap() };
    assert_eq!(config.unset_host(""), Ok(()));
    assert_eq!(config.map.to_text(), "hosts = 1\n");
}

#[test]
fn unset_removes_a_host() {
    let mut config = FileConfig::from_files(CONFIG, HOSTS).unwrap();
    assert_eq!(config.unset_host("h1"), Ok(()));
    assert_eq!(config.hosts(), Ok(vec!["h2".to_string()]));
    assert_eq!(config.get("h1", "token"), Err(ConfigError::HostNotFound));
    assert_eq!(config.default_host(), Ok("h2".to_string()));
    assert_eq!(config.hosts_to_string().unwrap(), "[h2]\ntoken = \"def\"\ndefault = \"true\"");
}

#[test]
fn aliases_are_bound_to_their_config() {
    let config = FileConfig::from_files(CONFIG, HOSTS).unwrap();
    let aliases = config.aliases().unwrap();
    assert_eq!(aliases.map.get_string_value("co"), Ok("pr checkout".to_string()));
    assert!(std::ptr::eq(aliases.parent, &config));
    assert_eq!(aliases.parent.default_host(), Ok("h2".to_string()));
}

#[test]
fn every_key_is_writable() {
    let config = FileConfig::new();
    assert_eq!(config.check_writable("", "organization"), Ok(()));
    assert_eq!(config.check_writable("h1", "token"), Ok(()));
}

#[test]
fn quoted_host_names_survive() {
    let mut config = config_with_hosts("[\"api.oxide.computer\"]\ntoken = \"abc\"\n");
    assert_eq!(config.hosts(), Ok(vec!["api.oxide.computer".to_string()]));
    assert_eq!(config.get("api.oxide.computer", "token"), Ok("abc".to_string()));
    config.set("api.oxide.computer", "user", "me").unwrap();
    assert_eq!(config.get("api.oxide.computer", "user"), Ok("me".to_string()));
    assert_eq!(config.default_host(), Ok("api.oxide.computer".to_string()));
}

#[test]
fn from_maps_stores_the_hosts() {
    let settings = ConfigMap::parse("organization = \"other\"\n").unwrap();
    let mut hosts = ConfigMap::new();
    let mut h1 = ConfigMap::new();
    h1.set_string_value("token", "abc").unwrap();
    hosts.set_table("h1", &h1);
    let config = FileConfig::from_maps(settings, &hosts);
    assert_eq!(config.hosts(), Ok(vec!["h1".to_string()]));
    assert_eq!(config.get("h1", "token"), Ok("abc".to_string()));
    assert_eq!(config.get("", "organization"), Ok("other".to_string()));
    assert_eq!(config.config_to_string().unwrap(), "organization = \"other\"");
    assert_eq!(config.hosts_to_string().unwrap(), "[h1]\ntoken = \"abc\"");
}

#[test]
fn hosts_key_of_the_settings_file_gives_way() {
    let config = FileConfig::from_files("hosts = 1\na = \"1\"\n", "[h1]\n").unwrap();
    assert_eq!(config.hosts(), Ok(vec!["h1".to_string()]));
    assert_eq!(config.config_to_string().unwrap(), "a = \"1\"");
}

#[test]
fn set_keeps_the_other_hosts_and_keys() {
    let mut config = FileConfig::from_files(CONFIG, HOSTS).unwrap();
    config.set("h2", "token", "new").unwrap();
    assert_eq!(config.get("h1", "token"), Ok("abc".to_string()));
    assert_eq!(config.get("h1", "user"), Ok("me".to_string()));
    assert_eq!(config.get("h2", "default"), Ok("true".to_string()));
    assert_eq!(config.get("h2", "token"), Ok("new".to_string()));
    assert_eq!(config.get("", "organization"), Ok("other".to_string()));
    assert_eq!(config.get("", "editor"), Ok("vi".to_string()));
}

#[test]
fn unset_twice_is_unset_once() {
    let mut once = FileConfig::from_files(CONFIG, HOSTS).unwrap();
    once.unset_host("h2").unwrap();
    let mut twice = FileConfig::from_files(CONFIG, HOSTS).unwrap();
    twice.unset_host("h2").unwrap();
    twice.unset_host("h2").unwrap();
    assert_eq!(once.hosts(), Ok(vec!["h1".to_string()]));
    assert_eq!(twice.hosts(), once.hosts());
    assert_eq!(twice.hosts_to_string().unwrap(), once.hosts_to_string().unwrap());
    assert_eq!(twice.map.to_text(), once.map.to_text());
}

#[test]
fn round_trip_keeps_a_closing_comment_of_the_settings() {
    let text = "a = \"1\"\n\n[aliases]\nco = \"pr checkout\"\n# the end";
    let config = FileConfig::from_files(text, "[h1]\n").unwrap();
    assert_eq!(config.config_to_string().unwrap(), text);
}

#[test]
fn round_trip_keeps_the_order_of_keys_and_tables() {
    let text = "z = \"26\"\na = \"1\"\n\n[zeta]\nk = \"v\"\n\n[aliases]\nco = \"x\"";
    let hosts = "[zulu]\ntoken = \"z\"\n\n[alpha]\ntoken = \"a\"";
    let config = FileConfig::from_files(text, hosts).unwrap();
    assert_eq!(config.config_to_string().unwrap(), text);
    assert_eq!(config.hosts_to_string().unwrap(), hosts);
    assert_eq!(config.hosts(), Ok(vec!["zulu".to_string(), "alpha".to_string()]));
}
