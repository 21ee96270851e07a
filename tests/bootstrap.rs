use bridge_host::store::{default_settings, Setting, SettingValue, Store, Token, User};

fn ids(store: &Store) -> Vec<String> {
    store.settings.iter().map(|s| s.id.clone()).collect()
}

const DOCUMENTED: [&str; 12] = [
    "S_devicePath",
    "N_deviceBaud",
    "B_startOnBoot",
    "F_adjustCorrectionF",
    "B_savePrinterNotifications",
    "N_deviceWidth",
    "N_deviceHeight",
    "N_deviceDepth",
    "B_deviceHB",
    "B_deviceHC",
    "N_clientTerminalAmount",
    "S_sentryDsn",
];

#[test]
fn bootstrap_twice_seeds_twelve_keys() {
    let defaults = default_settings();
    let mut store = Store::new();
    store.bootstrap(&defaults, 100);
    assert_eq!(ids(&store), DOCUMENTED.iter().map(|s| s.to_string()).collect::<Vec<_>>());
    store.bootstrap(&defaults, 100);
    assert_eq!(ids(&store), DOCUMENTED.iter().map(|s| s.to_string()).collect::<Vec<_>>());
    let mut sorted = ids(&store);
    sorted.sort();
    sorted.dedup();
    assert_eq!(sorted.len(), 12);
}

#[test]
fn default_values_and_kinds() {
    let defaults = default_settings();
    assert_eq!(defaults[2].kind, 1);
    assert_eq!(defaults[2].value, SettingValue::Bool(false));
    assert_eq!(defaults[4].value, SettingValue::Bool(true));
    assert_eq!(defaults[3].kind, 3);
    assert_eq!(defaults[10].value, SettingValue::Int(500));
    assert_eq!(defaults[0].value, SettingValue::Null);
}

#[test]
fn bootstrap_keeps_existing_rows() {
    let mut store = Store::new();
    let custom = Setting { id: "N_deviceBaud".to_string(), kind: 2, value: SettingValue::Int(115200) };
    store.settings.push(custom.clone());
    store.users.push(User { username: "admin".to_string(), password: "hash".to_string(), permissions: 7 });
    store.bootstrap(&default_settings(), 100);
    assert_eq!(store.settings[0], custom);
    assert_eq!(store.settings.len(), 12);
    assert_eq!(store.users.len(), 1);
    assert_eq!(store.users[0].username, "admin");
}

#[test]
fn insert_if_absent_ignores_present_key() {
    let mut store = Store::new();
    let first = Setting { id: "B_deviceHB".to_string(), kind: 1, value: SettingValue::Bool(true) };
    store.insert_setting_if_absent(first.clone());
    store.insert_setting_if_absent(Setting { id: "B_deviceHB".to_string(), kind: 1, value: SettingValue::Bool(false) });
    assert_eq!(store.settings, vec![first]);
}

#[test]
fn only_strictly_expired_tokens_are_removed() {
    let token = |name: &str, expire: Option<u64>| Token {
        username: "admin".to_string(),
        token: name.to_string(),
        expire,
    };
    let mut store = Store::new();
    store.tokens = vec![token("old", Some(99)), token("today", Some(100)), token("later", Some(150)), token("never", None)];
    store.bootstrap(&default_settings(), 100);
    let left: Vec<String> = store.tokens.iter().map(|t| t.token.clone()).collect();
    assert_eq!(left, vec!["today".to_string(), "later".to_string(), "never".to_string()]);
    store.bootstrap(&default_settings(), 100);
    assert_eq!(store.tokens.len(), 3);
}
