//! The tool's global configuration: where the configuration folder lives,
//! and the persisted form of the global settings.
//!
//! File contents and paths are handled as plain bytes; reading and writing
//! the files themselves is the caller's business.

use vstd::prelude::*;

verus! {

/// Why a configuration operation failed.
#[derive(Clone, Copy, Debug, PartialEq, Eq, Structural)]
pub enum ConfigError {
    /// A configuration-type value was not one of the two known names.
    InvalidConfigType,
    /// A configuration file did not bind the configuration-type key.
    MalformedConfig,
    /// No home directory is available to place the global folder under.
    NoHomeDirectory,
}

/// A configuration for where to place and use the config: one per system
/// user, or one per working directory.
#[derive(Clone, Copy, Debug, PartialEq, Eq, Structural)]
pub enum ConfigType {
    /// Per system user configuration, placed under the home directory.
    Global,
    /// Per directory configuration, placed under the current directory.
    Workspace,
}

/// An ASCII space, tab, carriage return or line feed.
pub open spec fn is_ascii_space(b: u8) -> bool {
    b == 32 || b == 9 || b == 13 || b == 10
}

/// The byte with an ASCII upper-case letter folded to lower case.
pub open spec fn to_lower(b: u8) -> u8 {
    if 65 <= b && b <= 90 {
        (b + 32) as u8
    } else {
        b
    }
}

/// Every byte folded to lower case.
pub open spec fn lower_all(s: Seq<u8>) -> Seq<u8> {
    s.map_values(|b: u8| to_lower(b))
}

/// The bytes with their leading ASCII whitespace removed.
pub open spec fn trim_front(s: Seq<u8>) -> Seq<u8>
    decreases s.len(),
{
    if s.len() > 0 && is_ascii_space(s[0]) {
        trim_front(s.drop_first())
    } else {
        s
    }
}

/// The bytes with their trailing ASCII whitespace removed.
pub open spec fn trim_back(s: Seq<u8>) -> Seq<u8>
    decreases s.len(),
{
    if s.len() > 0 && is_ascii_space(s.last()) {
        trim_back(s.drop_last())
    } else {
        s
    }
}

/// The bytes with ASCII whitespace removed at both ends.
pub open spec fn trim(s: Seq<u8>) -> Seq<u8> {
    trim_back(trim_front(s))
}

/// The name of the global configuration type.
pub open spec fn global_name() -> Seq<u8> {
    seq![103u8, 108, 111, 98, 97, 108]  // "global"
}

/// The name of the workspace configuration type.
pub open spec fn workspace_name() -> Seq<u8> {
    seq![119u8, 111, 114, 107, 115, 112, 97, 99, 101]  // "workspace"
}

/// The name each configuration type goes by.
pub open spec fn config_type_name(t: ConfigType) -> Seq<u8> {
    match t {
        ConfigType::Global => global_name(),
        ConfigType::Workspace => workspace_name(),
    }
}

/// What parsing a configuration-type value yields: the name is taken with
/// ASCII whitespace around it and letter case ignored.
pub open spec fn spec_parse_config_type(s: Seq<u8>) -> Option<ConfigType> {
    let t = lower_all(trim(s));
    if t == global_name() {
        Some(ConfigType::Global)
    } else if t == workspace_name() {
        Some(ConfigType::Workspace)
    } else {
        None
    }
}

fn byte_is_space(b: u8) -> (r: bool)
    ensures
        r == is_ascii_space(b),
{
    b == 32 || b == 9 || b == 13 || b == 10
}

fn byte_to_lower(b: u8) -> (r: u8)
    ensures
        r == to_lower(b),
{
    if 65 <= b && b <= 90 {
        b + 32
    } else {
        b
    }
}

/// The bytes with ASCII whitespace removed at both ends.
fn trim_bytes(s: &[u8]) -> (r: Vec<u8>)
    ensures
        r@ == trim(s@),
{
    let len: usize = s.len();
    proof {
        assert(s@.subrange(0, len as int) =~= s@);
    }
    let mut start: usize = 0;
    while start < len && byte_is_space(s[start])
        invariant
            len == s@.len(),
            start <= len,
            trim_front(s@) == trim_front(s@.subrange(start as int, len as int)),
        decreases len - start,
    {
        proof {
            let sub = s@.subrange(start as int, len as int);
            assert(sub[0] == s@[start as int]);
            assert(sub.drop_first() =~= s@.subrange(start as int + 1, len as int));
        }
        start = start + 1;
    }
    proof {
        let sub = s@.subrange(start as int, len as int);
        if start < len {
            assert(sub[0] == s@[start as int]);
        }
        assert(trim_front(s@) == sub);
    }
    let mut end: usize = len;
    while end > start && byte_is_space(s[end - 1])
        invariant
            len == s@.len(),
            start <= end <= len,
            trim_front(s@) == s@.subrange(start as int, len as int),
            trim_back(s@.subrange(start as int, len as int)) == trim_back(
                s@.subrange(start as int, end as int),
            ),
        decreases end,
    {
        proof {
            let sub = s@.subrange(start as int, end as int);
            assert(sub.last() == s@[end - 1]);
            assert(sub.drop_last() =~= s@.subrange(start as int, end as int - 1));
        }
        end = end - 1;
    }
    proof {
        let sub = s@.subrange(start as int, end as int);
        if end > start {
            assert(sub.last() == s@[end - 1]);
        }
        assert(trim(s@) == sub);
    }
    let mut r: Vec<u8> = Vec::new();
    let mut i: usize = start;
    while i < end
        invariant
            len == s@.len(),
            start <= i <= end <= len,
            r@ == s@.subrange(start as int, i as int),
        decreases end - i,
    {
        r.push(s[i]);
        proof {
            assert(r@ =~= s@.subrange(start as int, i as int + 1));
        }
        i = i + 1;
    }
    proof {
        assert(r@ == trim(s@));
    }
    r
}

/// Every byte folded to lower case.
fn lower_bytes(s: &[u8]) -> (r: Vec<u8>)
    ensures
        r@ == lower_all(s@),
{
    let mut r: Vec<u8> = Vec::new();
    let mut i: usize = 0;
    while i < s.len()
        invariant
            i <= s@.len(),
            r@.len() == i,
            forall|m: int| 0 <= m < i ==> r@[m] == to_lower(s@[m]),
        decreases s@.len() - i,
    {
        r.push(byte_to_lower(s[i]));
        i = i + 1;
    }
    proof {
        assert(r@ =~= lower_all(s@));
    }
    r
}

/// Whether two byte strings hold the same bytes.
fn bytes_eq(a: &[u8], b: &[u8]) -> (r: bool)
    ensures
        r == (a@ == b@),
{
    if a.len() != b.len() {
        return false;
    }
    let mut i: usize = 0;
    while i < a.len()
        invariant
            a@.len() == b@.len(),
            i <= a@.len(),
            forall|m: int| 0 <= m < i ==> a@[m] == b@[m],
        decreases a@.len() - i,
    {
        if a[i] != b[i] {
            return false;
        }
        i = i + 1;
    }
    proof {
        assert(a@ =~= b@);
    }
    true
}

impl ConfigType {
    /// The name this configuration type goes by, as it is persisted and
    /// printed.
    pub fn name(&self) -> (r: Vec<u8>)
        ensures
            r@ == config_type_name(*self),
    {
        let mut r: Vec<u8> = Vec::new();
        match self {
            ConfigType::Global => {
                // "global"
                r.push(103);
                r.push(108);
                r.push(111);
                r.push(98);
                r.push(97);
                r.push(108);
                proof {
                    assert(r@ =~= global_name());
                }
            },
            ConfigType::Workspace => {
                // "workspace"
                r.push(119);
                r.push(111);
                r.push(114);
                r.push(107);
                r.push(115);
                r.push(112);
                r.push(97);
                r.push(99);
                r.push(101);
                proof {
                    assert(r@ =~= workspace_name());
                }
            },
        }
        r
    }

    /// Parses a configuration-type name: ASCII whitespace around it and
    /// letter case are ignored; anything but the two known names is an
    /// invalid configuration type.
    pub fn parse(s: &[u8]) -> (r: Result<ConfigType, ConfigError>)
        ensures
            r == (match spec_parse_config_type(s@) {
                Some(t) => Ok::<ConfigType, ConfigError>(t),
                None => Err::<ConfigType, ConfigError>(ConfigError::InvalidConfigType),
            }),
    {
        let trimmed = trim_bytes(s);
        let t = lower_bytes(trimmed.as_slice());
        let g = ConfigType::Global.name();
        if bytes_eq(t.as_slice(), g.as_slice()) {
            return Ok(ConfigType::Global);
        }
        let w = ConfigType::Workspace.name();
        if bytes_eq(t.as_slice(), w.as_slice()) {
            return Ok(ConfigType::Workspace);
        }
        Err(ConfigError::InvalidConfigType)
    }
}

impl Default for ConfigType {
    /// Workspace is the default configuration type.
    fn default() -> (r: Self)
        ensures
            r == ConfigType::Workspace,
    {
        ConfigType::Workspace
    }
}

/// A global configuration for settings related to a user.
#[derive(Clone, Copy, Debug, PartialEq, Eq, Structural)]
pub struct GlobalConfig {
    /// Whether to be using global or workspace mode.
    pub config_type: ConfigType,
}

impl Default for GlobalConfig {
    /// The default configuration uses workspace mode.
    fn default() -> (r: Self)
        ensures
            r == (GlobalConfig { config_type: ConfigType::Workspace }),
    {
        GlobalConfig { config_type: ConfigType::Workspace }
    }
}

/// The key a configuration file binds: `config_type:`.
pub open spec fn config_key() -> Seq<u8> {
    seq![99u8, 111, 110, 102, 105, 103, 95, 116, 121, 112, 101, 58]  // "config_type:"
}

/// The persisted form of a configuration: the key, one space, the
/// configuration type's name, and a final line feed.
pub open spec fn spec_render(c: GlobalConfig) -> Seq<u8> {
    config_key() + seq![32u8] + config_type_name(c.config_type) + seq![10u8]
}

/// What loading file contents yields: after any leading whitespace the file
/// must bind the configuration-type key, and the rest of the file names the
/// configuration type.
pub open spec fn spec_parse_config(s: Seq<u8>) -> Result<GlobalConfig, ConfigError> {
    let t = trim_front(s);
    if t.len() >= config_key().len() && t.subrange(0, config_key().len() as int) == config_key() {
        match spec_parse_config_type(t.skip(config_key().len() as int)) {
            Some(ct) => Ok(GlobalConfig { config_type: ct }),
            None => Err(ConfigError::InvalidConfigType),
        }
    } else {
        Err(ConfigError::MalformedConfig)
    }
}

fn config_key_bytes() -> (r: Vec<u8>)
    ensures
        r@ == config_key(),
{
    // "config_type:"
    let mut r: Vec<u8> = Vec::new();
    r.push(99);
    r.push(111);
    r.push(110);
    r.push(102);
    r.push(105);
    r.push(103);
    r.push(95);
    r.push(116);
    r.push(121);
    r.push(112);
    r.push(101);
    r.push(58);
    proof {
        assert(r@ =~= config_key());
    }
    r
}

impl GlobalConfig {
    /// Loads the configuration from the global configuration file's
    /// contents; an absent file means the default configuration.
    pub fn load(file_contents: Option<&[u8]>) -> (r: Result<GlobalConfig, ConfigError>)
        ensures
            r == (match file_contents {
                None => Ok::<GlobalConfig, ConfigError>(
                    GlobalConfig { config_type: ConfigType::Workspace },
                ),
                Some(s) => spec_parse_config(s@),
            }),
    {
        match file_contents {
            None => Ok(GlobalConfig::default()),
            Some(s) => GlobalConfig::parse_contents(s),
        }
    }

    fn parse_contents(s: &[u8]) -> (r: Result<GlobalConfig, ConfigError>)
        ensures
            r == spec_parse_config(s@),
    {
        let len: usize = s.len();
        proof {
            assert(s@.subrange(0, len as int) =~= s@);
        }
        let mut start: usize = 0;
        while start < len && byte_is_space(s[start])
            invariant
                len == s@.len(),
                start <= len,
                trim_front(s@) == trim_front(s@.subrange(start as int, len as int)),
            decreases len - start,
        {
            proof {
                let sub = s@.subrange(start as int, len as int);
                assert(sub[0] == s@[start as int]);
                assert(sub.drop_first() =~= s@.subrange(start as int + 1, len as int));
            }
            start = start + 1;
        }
        proof {
            let sub = s@.subrange(start as int, len as int);
            if start < len {
                assert(sub[0] == s@[start as int]);
            }
            assert(trim_front(s@) == sub);
        }
        let ghost t = trim_front(s@);
        let key = config_key_bytes();
        if len - start < key.len() {
            return Err(ConfigError::MalformedConfig);
        }
        let mut i: usize = 0;
        while i < key.len()
            invariant
                len == s@.len(),
                key@ == config_key(),
                start + key@.len() <= len,
                i <= key@.len(),
                t == trim_front(s@),
                t == s@.subrange(start as int, len as int),
                forall|m: int| 0 <= m < i ==> t[m] == key@[m],
            decreases key@.len() - i,
        {
            if s[start + i] != key[i] {
                proof {
                    assert(t[i as int] == s@[start + i]);
                    assert(t.subrange(0, config_key().len() as int) != config_key()) by {
                        assert(t.subrange(0, config_key().len() as int)[i as int] != config_key()[i as int]);
                    }
                }
                return Err(ConfigError::MalformedConfig);
            }
            proof {
                assert(t[i as int] == s@[start + i]);
            }
            i = i + 1;
        }
        proof {
            assert(t.subrange(0, config_key().len() as int) =~= config_key());
        }
        let mut value: Vec<u8> = Vec::new();
        let mut p: usize = start + key.len();
        while p < len
            invariant
                len == s@.len(),
                start + config_key().len() <= p <= len,
                t == trim_front(s@),
                t == s@.subrange(start as int, len as int),
                t.subrange(0, config_key().len() as int) == config_key(),
                value@ == s@.subrange(start + config_key().len(), p as int),
            decreases len - p,
        {
            value.push(s[p]);
            proof {
                assert(value@ =~= s@.subrange(start + config_key().len(), p as int + 1));
            }
            p = p + 1;
        }
        proof {
            assert(value@ =~= t.skip(config_key().len() as int));
        }
        match ConfigType::parse(value.as_slice()) {
            Ok(ct) => Ok(GlobalConfig { config_type: ct }),
            Err(_) => Err(ConfigError::InvalidConfigType),
        }
    }

    /// The exact bytes this configuration is persisted as.
    pub fn save(&self) -> (r: Vec<u8>)
        ensures
            r@ == spec_render(*self),
    {
        let mut r = config_key_bytes();
        r.push(32);  // one space
        let name = self.config_type.name();
        r.extend_from_slice(name.as_slice());
        r.push(10);  // final line feed
        proof {
            assert(r@ =~= spec_render(*self));
        }
        r
    }
}

/// The name of the folder the tool's configuration lives in.
pub open spec fn config_folder() -> Seq<u8> {
    seq![46u8, 97, 112, 116, 111, 115]  // ".aptos"
}

/// The base path with the configuration folder joined onto it.
pub open spec fn spec_config_folder_under(base: Seq<u8>) -> Seq<u8> {
    base + seq![47u8] + config_folder()
}

/// Joins the configuration folder onto a base path.
fn join_config_folder(base: &[u8]) -> (r: Vec<u8>)
    ensures
        r@ == spec_config_folder_under(base@),
{
    let mut r: Vec<u8> = Vec::new();
    r.extend_from_slice(base);
    r.push(47);  // the path separator
    // ".aptos"
    r.push(46);
    r.push(97);
    r.push(112);
    r.push(116);
    r.push(111);
    r.push(115);
    proof {
        assert(r@ =~= spec_config_folder_under(base@));
    }
    r
}

/// The folder the global configuration lives in: the configuration folder
/// under the home directory; without a home directory there is none.
pub fn global_folder(home: Option<&[u8]>) -> (r: Result<Vec<u8>, ConfigError>)
    ensures
        (match home {
            Some(h) => r matches Ok(p) && p@ == spec_config_folder_under(h@),
            None => r matches Err(e) && e == ConfigError::NoHomeDirectory,
        }),
{
    match home {
        Some(h) => Ok(join_config_folder(h)),
        None => Err(ConfigError::NoHomeDirectory),
    }
}

impl GlobalConfig {
    /// Where the configuration folder lives for this configuration: under
    /// the home directory in global mode, under the current directory in
    /// workspace mode.
    pub fn get_config_location(&self, home: Option<&[u8]>, current_dir: &[u8]) -> (r: Result<
        Vec<u8>,
        ConfigError,
    >)
        ensures
            (match self.config_type {
                ConfigType::Global => (match home {
                    Some(h) => r matches Ok(p) && p@ == spec_config_folder_under(h@),
                    None => r matches Err(e) && e == ConfigError::NoHomeDirectory,
                }),
                ConfigType::Workspace => r matches Ok(p) && p@ == spec_config_folder_under(
                    current_dir@,
                ),
            }),
    {
        match self.config_type {
            ConfigType::Global => global_folder(home),
            ConfigType::Workspace => Ok(join_config_folder(current_dir)),
        }
    }
}

/// Set global configuration settings: any setting that is not provided is
/// not changed.
#[derive(Clone, Copy, Debug, PartialEq, Eq, Structural)]
pub struct SetGlobalConfig {
    /// The configuration type to switch to, if one was given.
    pub config_type: Option<ConfigType>,
}

impl SetGlobalConfig {
    /// The configuration as this command leaves it: the given configuration
    /// type if one was provided, the loaded one otherwise.
    pub fn apply(&self, config: GlobalConfig) -> (r: GlobalConfig)
        ensures
            r.config_type == (match self.config_type {
                Some(t) => t,
                None => config.config_type,
            }),
    {
        match self.config_type {
            Some(t) => GlobalConfig { config_type: t },
            None => config,
        }
    }
}

/// Shows the properties in the global config.
#[derive(Clone, Copy, Debug, PartialEq, Eq, Structural)]
pub struct ShowGlobalConfig {}

impl ShowGlobalConfig {
    /// Loads and returns the global configuration, exactly as
    /// [`GlobalConfig::load`] does.
    pub fn execute(&self, file_contents: Option<&[u8]>) -> (r: Result<GlobalConfig, ConfigError>)
        ensures
            r == (match file_contents {
                None => Ok::<GlobalConfig, ConfigError>(
                    GlobalConfig { config_type: ConfigType::Workspace },
                ),
                Some(s) => spec_parse_config(s@),
            }),
    {
        GlobalConfig::load(file_contents)
    }
}

/// Saving a configuration and loading exactly the saved bytes yields the
/// same configuration back.
pub proof fn lemma_save_load_round_trip(c: GlobalConfig)
    ensures
        spec_parse_config(spec_render(c)) == Ok::<GlobalConfig, ConfigError>(c),
{
    let s = spec_render(c);
    let name = config_type_name(c.config_type);
    assert(name.len() >= 1 && !is_ascii_space(name[0]) && !is_ascii_space(name.last())) by {
        if c.config_type is Global {
            assert(global_name()[0] == 103 && global_name().last() == 108);
        } else {
            assert(workspace_name()[0] == 119 && workspace_name().last() == 101);
        }
    }
    // No leading whitespace: the file starts with the key.
    assert(s[0] == 99);
    assert(trim_front(s) == s);
    assert(s.subrange(0, config_key().len() as int) =~= config_key());
    // Past the key stand one space, the name, and the final line feed.
    let v = s.skip(config_key().len() as int);
    assert(v =~= seq![32u8] + name + seq![10u8]);
    let w = name + seq![10u8];
    assert(v[0] == 32 && is_ascii_space(v[0]));
    assert(v.drop_first() =~= w);
    assert(trim_front(v) == trim_front(w));
    assert(w[0] == name[0]);
    assert(trim_front(w) == w);
    assert(w.last() == 10 && is_ascii_space(w.last()));
    assert(w.drop_last() =~= name);
    assert(trim_back(w) == trim_back(name));
    assert(trim_back(name) == name);
    assert(trim(v) == name);
    // The persisted names are already lower case.
    assert(lower_all(name) =~= name) by {
        assert(forall|i: int|
            0 <= i < name.len() ==> lower_all(name)[i] == to_lower(#[trigger] name[i]));
        assert(forall|i: int| 0 <= i < name.len() ==> !(65 <= #[trigger] name[i] <= 90)) by {
            if c.config_type is Global {
                assert(forall|i: int|
                    0 <= i < global_name().len() ==> !(65 <= #[trigger] global_name()[i] <= 90));
            } else {
                assert(forall|i: int|
                    0 <= i < workspace_name().len() ==> !(65 <= #[trigger] workspace_name()[i]
                        <= 90));
            }
        }
    }
    assert(spec_parse_config_type(v) == Some(c.config_type)) by {
        if c.config_type is Global {
            assert(lower_all(trim(v)) == global_name());
        } else {
            assert(lower_all(trim(v)) == workspace_name());
            assert(workspace_name().len() != global_name().len());
        }
    }
    assert(c == (GlobalConfig { config_type: c.config_type }));
}

} // verus!
