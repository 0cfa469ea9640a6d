use edma::config::{
    load_config_text, ConfigError, databases_loadable, load_config, load_databases, load_templates, templates_loadable, CliConfig,
    Config, DatabaseMap, RawDatabase, RawLayout, RawTemplate,
};
use edma::key::Key;
use edma::shell::{command_result, get_shell_path};
use edma::utils::file::{
    contains_char, get_absolute_path, get_absolute_path_buf, get_db_absolute_path, sanitize,
    split_once_char,
};
use edma::utils::words::starts_with;

fn q(s: &str) -> String {
    format!("\"{}\"", s)
}

fn cli() -> CliConfig {
    CliConfig { config_path: "conf/edma.json".to_string(), create_config: false }
}

fn raw_db(name: &str, path: &str) -> RawDatabase {
    RawDatabase { name: q(name), path: q(path) }
}

#[test]
fn absolute_paths_resolve_dots_against_the_working_directory() {
    assert_eq!(get_absolute_path("a/../b", "/work"), "/work/b");
    assert_eq!(get_absolute_path("./db", "/work/dir"), "/work/dir/db");
    assert_eq!(get_absolute_path("/tmp/x", "/work"), "/tmp/x");
    assert_eq!(get_absolute_path_buf("../up".to_string(), "/work/dir"), "/work/up");
}

#[test]
fn database_specs_split_at_the_colon() {
    assert_eq!(
        get_db_absolute_path("rocksdb:/tmp/db", "/work"),
        ("rocksdb".to_string(), "/tmp/db".to_string())
    );
    assert_eq!(
        get_db_absolute_path("redb:data:extra", "/work"),
        ("redb".to_string(), "/work/data".to_string())
    );
}

#[test]
fn splitting_and_searching() {
    assert_eq!(split_once_char("a=b=c", '='), ("a".to_string(), Some("b=c".to_string())));
    assert_eq!(split_once_char("abc", '='), ("abc".to_string(), None));
    assert!(contains_char("a:b", ':'));
    assert!(!contains_char("ab", ':'));
    assert!(starts_with("COLUMN=x", "COLUMN"));
    assert!(!starts_with("COL", "COLUMN"));
}

#[test]
fn sanitize_keeps_the_quoted_text() {
    assert_eq!(sanitize("\"rocksdb\""), "rocksdb");
    assert_eq!(sanitize("x\"in\"side\"y"), "in");
    assert_eq!(sanitize("\"\""), "");
}

#[test]
fn new_config_has_default_keys() {
    let c = Config::new(&cli(), "/home/me");
    assert_eq!(c.path, "/home/me/conf/edma.json");
    assert_eq!(c.cwd, "/home/me");
    assert!(c.databases.is_empty());
    assert!(c.templates.is_empty());
    assert_eq!(c.key_config.quit, Key::Char('q'));
    assert_eq!(c.key_config.database_select_up, Key::Char('9'));
    assert_eq!(c.key_config.database_select_down, Key::Char('0'));
    assert_eq!(c.key_config.enter, Key::Enter);
}

#[test]
fn databases_are_grouped_by_kind_in_first_seen_order() {
    let raw = vec![
        raw_db("rocksdb", "/a"),
        raw_db("redb", "/b"),
        raw_db("rocksdb", "/c"),
    ];
    assert!(databases_loadable(&raw));
    let m = load_databases(&raw);
    assert_eq!(m.len(), 2);
    assert_eq!(m.keys(), vec!["rocksdb".to_string(), "redb".to_string()]);
    let rocks: Vec<String> = m.get(&"rocksdb".to_string()).unwrap().iter().map(|c| c.path.clone()).collect();
    assert_eq!(rocks, vec!["/a".to_string(), "/c".to_string()]);
    assert_eq!(m.position(&"redb".to_string()), Some(1));
    assert!(m.get(&"sled".to_string()).is_none());
}

#[test]
fn database_map_insert() {
    let mut m = DatabaseMap::new();
    m.insert("redb".to_string(), "/x".to_string());
    m.insert("redb".to_string(), "/y".to_string());
    assert_eq!(m.len(), 1);
    assert_eq!(m.kind_at(0), "redb");
    assert_eq!(m.configs_at(0).len(), 2);
}

#[test]
fn unquoted_entries_are_not_loadable() {
    let raw = vec![RawDatabase { name: "rocksdb".to_string(), path: q("/a") }];
    assert!(!databases_loadable(&raw));
    let t = vec![RawTemplate {
        name: q("t"),
        layouts: vec![RawLayout { name: q("f"), variant: q("Int128"), from: 0, to: 4 }],
    }];
    assert!(!templates_loadable(&t));
}

#[test]
fn templates_load_in_order() {
    let t = vec![RawTemplate {
        name: q("Custom layout"),
        layouts: vec![
            RawLayout { name: q("name"), variant: q("String"), from: 0, to: 5 },
            RawLayout { name: q("id"), variant: q("Int64"), from: 5, to: 13 },
        ],
    }];
    assert!(templates_loadable(&t));
    let loaded = load_templates(&t);
    assert_eq!(loaded.len(), 1);
    assert_eq!(loaded[0].name, "Custom layout");
    assert_eq!(loaded[0].layout[1].name, "id");
    assert_eq!(loaded[0].layout[1].variant.to_string(), "Int64");
    assert_eq!((loaded[0].layout[1].from, loaded[0].layout[1].to), (5, 13));
}

#[test]
fn load_config_puts_system_templates_first() {
    let t = vec![RawTemplate { name: q("mine"), layouts: vec![] }];
    let c = load_config(&cli(), "/w", Some(vec![raw_db("rocksdb", "/temp")]), Some(t));
    let names: Vec<String> = c.templates.iter().map(|t| t.name.clone()).collect();
    assert_eq!(
        names,
        vec![
            "SYSTEM:Bytes",
            "SYSTEM:String",
            "SYSTEM:Int32",
            "SYSTEM:Int64",
            "SYSTEM:Float32",
            "SYSTEM:Float64",
            "SYSTEM:Boolean",
            "mine"
        ]
    );
    assert_eq!(c.templates[2].layout[0].name, "*");
    assert_eq!(c.templates[2].layout[0].variant.to_string(), "Int32");
    assert_eq!(c.databases.keys(), vec!["rocksdb".to_string()]);
}

#[test]
fn load_config_without_entries_stays_empty() {
    let c = load_config(&cli(), "/w", None, None);
    assert!(c.templates.is_empty());
    assert!(c.databases.is_empty());
}

#[test]
fn shell_path() {
    assert_eq!(get_shell_path(), "/bin/sh");
}

#[test]
fn command_output_is_quoted_base64() {
    assert_eq!(command_result(true, b"hello", b""), Ok("\"aGVsbG8=\"".to_string()));
    assert_eq!(command_result(true, b"", b""), Ok("\"\"".to_string()));
    assert_eq!(command_result(true, &[0xfb, 0xff], b""), Ok("\"+/8=\"".to_string()));
}

#[test]
fn failed_command_gives_its_error_output() {
    assert_eq!(command_result(false, b"ignored", b"sh: boom\n"), Err("sh: boom\n".to_string()));
}

const README_CONFIG: &str = r#"{
	"databases": [
		{ "name": "rocksdb", "path": "/temp" },
		{ "name": "redb", "path": "data/redb" },
		{ "name": "rocksdb", "path": "./other" }
	],
	"templates": [
		{
			"name": "Custom layout",
			"layouts": [
				{ "name": "name", "from": 0, "to": 5, "variant": "String" },
				{ "name": "id", "from": 5, "to": 13, "variant": "Int64" }
			]
		}
	]
}"#;

#[test]
fn config_text_loads_databases_and_templates() {
    let c = load_config_text(&cli(), "/w", README_CONFIG).unwrap();
    assert_eq!(c.path, "/w/conf/edma.json");
    assert_eq!(c.databases.keys(), vec!["rocksdb".to_string(), "redb".to_string()]);
    let rocks: Vec<String> =
        c.databases.get(&"rocksdb".to_string()).unwrap().iter().map(|d| d.path.clone()).collect();
    assert_eq!(rocks, vec!["/temp".to_string(), "./other".to_string()]);
    assert_eq!(c.templates.len(), 8);
    assert_eq!(c.templates[0].name, "SYSTEM:Bytes");
    let custom = &c.templates[7];
    assert_eq!(custom.name, "Custom layout");
    assert_eq!(custom.layout.len(), 2);
    assert_eq!(custom.layout[1].name, "id");
    assert_eq!(custom.layout[1].variant.to_string(), "Int64");
    assert_eq!((custom.layout[1].from, custom.layout[1].to), (5, 13));
}

#[test]
fn config_text_without_sections_is_empty() {
    let c = load_config_text(&cli(), "/w", "{}").unwrap();
    assert!(c.databases.is_empty());
    assert!(c.templates.is_empty());
}

#[test]
fn config_text_errors() {
    assert_eq!(load_config_text(&cli(), "/w", "{ not json").err(), Some(ConfigError::Parse));
    assert_eq!(
        load_config_text(&cli(), "/w", r#"{"databases": {"name": "x"}}"#).err(),
        Some(ConfigError::Shape)
    );
    assert_eq!(
        load_config_text(&cli(), "/w", r#"{"databases": [{"name": "x"}]}"#).err(),
        Some(ConfigError::Shape)
    );
    assert_eq!(
        load_config_text(
            &cli(),
            "/w",
            r#"{"templates": [{"name": "t", "layouts": [{"name": "a", "variant": "Bytes", "from": 1.5, "to": 2}]}]}"#
        )
        .err(),
        Some(ConfigError::Shape)
    );
    assert_eq!(
        load_config_text(&cli(), "/w", r#"{"databases": [{"name": 3, "path": "/a"}]}"#).err(),
        Some(ConfigError::Entry)
    );
    assert_eq!(
        load_config_text(
            &cli(),
            "/w",
            r#"{"templates": [{"name": "t", "layouts": [{"name": "a", "variant": "Int128", "from": 0, "to": 2}]}]}"#
        )
        .err(),
        Some(ConfigError::Entry)
    );
}
