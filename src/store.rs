use vstd::prelude::*;

verus! {

/// The value column of a setting.
#[derive(Clone, Debug, PartialEq, Eq)]
pub enum SettingValue {
    Null,
    Bool(bool),
    Int(i64),
    Text(String),
}

/// A row of the `settings` table: key, type tag and value.
#[derive(Clone, Debug, PartialEq, Eq)]
pub struct Setting {
    pub id: String,
    pub kind: u8,
    pub value: SettingValue,
}

/// A row of the `users` table.
#[derive(Clone, Debug, PartialEq, Eq)]
pub struct User {
    pub username: String,
    pub password: String,
    pub permissions: i64,
}

/// A row of the `tokens` table; `expire` is a day number, if set.
#[derive(Clone, Debug, PartialEq, Eq)]
pub struct Token {
    pub username: String,
    pub token: String,
    pub expire: Option<u64>,
}

impl Setting {
    /// A copy of this row.
    pub fn duplicate(&self) -> (r: Setting)
        ensures
            r == *self,
    {
        let value = match &self.value {
            SettingValue::Null => SettingValue::Null,
            SettingValue::Bool(b) => SettingValue::Bool(*b),
            SettingValue::Int(n) => SettingValue::Int(*n),
            SettingValue::Text(t) => SettingValue::Text(t.clone()),
        };
        Setting { id: self.id.clone(), kind: self.kind, value }
    }
}

impl Token {
    /// A copy of this row.
    pub fn duplicate(&self) -> (r: Token)
        ensures
            r == *self,
    {
        Token { username: self.username.clone(), token: self.token.clone(), expire: self.expire }
    }
}

/// The persistent store's three tables.
pub struct Store {
    pub users: Vec<User>,
    pub tokens: Vec<Token>,
    pub settings: Vec<Setting>,
}

/// Whether some row of `rows` has the key `id`.
pub open spec fn has_id(rows: Seq<Setting>, id: Seq<char>) -> bool {
    exists|i: int| 0 <= i < rows.len() && #[trigger] rows[i].id@ == id
}

/// `rows` after inserting `row` unless its key is already present.
pub open spec fn insert_if_absent(rows: Seq<Setting>, row: Setting) -> Seq<Setting> {
    if has_id(rows, row.id@) {
        rows
    } else {
        rows.push(row)
    }
}

/// `rows` after inserting each of `defaults` in turn, unless present.
pub open spec fn seeded(rows: Seq<Setting>, defaults: Seq<Setting>) -> Seq<Setting>
    decreases defaults.len(),
{
    if defaults.len() == 0 {
        rows
    } else {
        insert_if_absent(seeded(rows, defaults.drop_last()), defaults.last())
    }
}

/// A token whose expiry day lies strictly before `today`.
pub open spec fn expired(token: Token, today: u64) -> bool {
    token.expire is Some && token.expire->0 < today
}

/// The tokens that are not expired on `today`, in their order.
pub open spec fn unexpired(tokens: Seq<Token>, today: u64) -> Seq<Token> {
    tokens.filter(|t: Token| !expired(t, today))
}

fn contains_id(rows: &Vec<Setting>, id: &String) -> (r: bool)
    ensures
        r == has_id(rows@, id@),
{
    let mut i: usize = 0;
    while i < rows.len()
        invariant
            i <= rows@.len(),
            forall|j: int| 0 <= j < i ==> rows@[j].id@ != id@,
        decreases rows.len() - i,
    {
        if rows[i].id == *id {
            return true;
        }
        i += 1;
    }
    false
}

/// One default setting row.
fn default_row(id: &str, kind: u8, value: SettingValue) -> (r: Setting)
    ensures
        r.id@ == id@,
        r.kind == kind,
        r.value == value,
{
    Setting { id: id.to_owned(), kind, value }
}

/// The settings that every store starts with: key, type tag (0 text,
/// 1 boolean, 2 integer, 3 decimal) and default value.
pub fn default_settings() -> (r: Vec<Setting>)
    ensures
        r@.map_values(|row: Setting| row.id@) == seq![
            "S_devicePath"@,
            "N_deviceBaud"@,
            "B_startOnBoot"@,
            "F_adjustCorrectionF"@,
            "B_savePrinterNotifications"@,
            "N_deviceWidth"@,
            "N_deviceHeight"@,
            "N_deviceDepth"@,
            "B_deviceHB"@,
            "B_deviceHC"@,
            "N_clientTerminalAmount"@,
            "S_sentryDsn"@,
        ],
{
    let rows = vec![
        default_row("S_devicePath", 0, SettingValue::Null),
        default_row("N_deviceBaud", 2, SettingValue::Null),
        default_row("B_startOnBoot", 1, SettingValue::Bool(false)),
        default_row("F_adjustCorrectionF", 3, SettingValue::Null),
        default_row("B_savePrinterNotifications", 1, SettingValue::Bool(true)),
        default_row("N_deviceWidth", 2, SettingValue::Null),
        default_row("N_deviceHeight", 2, SettingValue::Null),
        default_row("N_deviceDepth", 2, SettingValue::Null),
        default_row("B_deviceHB", 1, SettingValue::Bool(false)),
        default_row("B_deviceHC", 1, SettingValue::Bool(false)),
        default_row("N_clientTerminalAmount", 2, SettingValue::Int(500)),
        default_row("S_sentryDsn", 0, SettingValue::Null),
    ];
    assert(rows@.map_values(|row: Setting| row.id@) =~= seq![
        "S_devicePath"@,
        "N_deviceBaud"@,
        "B_startOnBoot"@,
        "F_adjustCorrectionF"@,
        "B_savePrinterNotifications"@,
        "N_deviceWidth"@,
        "N_deviceHeight"@,
        "N_deviceDepth"@,
        "B_deviceHB"@,
        "B_deviceHC"@,
        "N_clientTerminalAmount"@,
        "S_sentryDsn"@,
    ]);
    rows
}

impl Store {
    /// A store with three empty tables.
    pub fn new() -> (r: Store)
        ensures
            r.users@.len() == 0,
            r.tokens@.len() == 0,
            r.settings@.len() == 0,
    {
        Store { users: Vec::new(), tokens: Vec::new(), settings: Vec::new() }
    }

    /// Adds `row` unless a setting with its key exists.
    pub fn insert_setting_if_absent(&mut self, row: Setting)
        ensures
            final(self).settings@ == insert_if_absent(old(self).settings@, row),
            final(self).users@ == old(self).users@,
            final(self).tokens@ == old(self).tokens@,
    {
        if !contains_id(&self.settings, &row.id) {
            self.settings.push(row);
        }
    }

    /// Seeds each of `defaults` in turn, unless its key is present.
    pub fn seed_settings(&mut self, defaults: &Vec<Setting>)
        ensures
            final(self).settings@ == seeded(old(self).settings@, defaults@),
            final(self).users@ == old(self).users@,
            final(self).tokens@ == old(self).tokens@,
    {
        let mut i: usize = 0;
        while i < defaults.len()
            invariant
                i <= defaults@.len(),
                self.settings@ == seeded(old(self).settings@, defaults@.subrange(0, i as int)),
                self.users@ == old(self).users@,
                self.tokens@ == old(self).tokens@,
            decreases defaults.len() - i,
        {
            assert(defaults@.subrange(0, i + 1).drop_last() =~= defaults@.subrange(0, i as int));
            self.insert_setting_if_absent(defaults[i].duplicate());
            i += 1;
        }
        assert(defaults@.subrange(0, i as int) =~= defaults@);
    }

    /// Deletes the tokens whose expiry day is strictly before `today`.
    pub fn remove_expired_tokens(&mut self, today: u64)
        ensures
            final(self).tokens@ == unexpired(old(self).tokens@, today),
            final(self).users@ == old(self).users@,
            final(self).settings@ == old(self).settings@,
    {
        let mut kept: Vec<Token> = Vec::new();
        let mut i: usize = 0;
        while i < self.tokens.len()
            invariant
                i <= self.tokens@.len(),
                self.tokens@ == old(self).tokens@,
                self.users@ == old(self).users@,
                self.settings@ == old(self).settings@,
                kept@ == unexpired(self.tokens@.subrange(0, i as int), today),
            decreases self.tokens.len() - i,
        {
            let token = &self.tokens[i];
            proof {
                reveal(Seq::filter);
                assert(self.tokens@.subrange(0, i + 1).drop_last() =~= self.tokens@.subrange(0, i as int));
            }
            let stale = match token.expire {
                Some(day) => day < today,
                None => false,
            };
            if !stale {
                kept.push(token.duplicate());
            }
            i += 1;
        }
        assert(self.tokens@.subrange(0, i as int) =~= self.tokens@);
        self.tokens = kept;
    }

    /// Startup hygiene: seeds those of `defaults` whose key is missing and
    /// deletes the tokens that expired before `today`.
    pub fn bootstrap(&mut self, defaults: &Vec<Setting>, today: u64)
        ensures
            final(self).settings@ == seeded(old(self).settings@, defaults@),
            final(self).tokens@ == unexpired(old(self).tokens@, today),
            final(self).users@ == old(self).users@,
    {
        self.seed_settings(defaults);
        self.remove_expired_tokens(today);
    }
}

} // verus!
