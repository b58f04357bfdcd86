//! The configuration document: its types, where it lives on disk, and the
//! decisions taken when it is loaded or edited.
use vstd::prelude::*;

verus! {

/// One entry of the process table: a running program name and the icon and
/// text shown while it runs.
pub struct ProcessEntry {
    pub name: String,
    pub icon: String,
    pub text: String,
}

/// The `processes` section: the idle fallback and the process table, in the
/// order in which entries are tried.
pub struct ProcessesConfig {
    pub idle_icon: String,
    pub idle_text: String,
    pub process_map: Vec<ProcessEntry>,
}

/// Image keys and hover texts of the presence.
pub struct Assets {
    pub large_image: String,
    pub large_text: String,
    pub small_image: String,
    pub small_text: String,
}

/// Up to two buttons, each a label and a URL.
pub struct Buttons {
    pub btn1_text: String,
    pub btn1_url: String,
    pub btn2_text: String,
    pub btn2_url: String,
}

/// The `presence` section. The same shape also holds a presence whose texts
/// have been expanded.
pub struct DiscordConfig {
    pub client_id: u64,
    pub details: String,
    pub state: String,
    pub assets: Assets,
    pub buttons: Buttons,
}

/// The whole configuration document.
pub struct Config {
    pub processes: ProcessesConfig,
    pub discord: DiscordConfig,
}

/// The presence section as plain sequences of characters.
pub struct DiscordView {
    pub client_id: u64,
    pub details: Seq<char>,
    pub state: Seq<char>,
    pub large_image: Seq<char>,
    pub large_text: Seq<char>,
    pub small_image: Seq<char>,
    pub small_text: Seq<char>,
    pub btn1_text: Seq<char>,
    pub btn1_url: Seq<char>,
    pub btn2_text: Seq<char>,
    pub btn2_url: Seq<char>,
}

/// A process table entry as plain sequences of characters.
pub struct ProcessEntryView {
    pub name: Seq<char>,
    pub icon: Seq<char>,
    pub text: Seq<char>,
}

/// The processes section as plain values.
pub struct ProcessesView {
    pub idle_icon: Seq<char>,
    pub idle_text: Seq<char>,
    pub process_map: Seq<ProcessEntryView>,
}

/// The whole document as plain values.
pub struct ConfigView {
    pub processes: ProcessesView,
    pub discord: DiscordView,
}

impl View for ProcessEntry {
    type V = ProcessEntryView;

    open spec fn view(&self) -> ProcessEntryView {
        ProcessEntryView { name: self.name@, icon: self.icon@, text: self.text@ }
    }
}

impl View for ProcessesConfig {
    type V = ProcessesView;

    open spec fn view(&self) -> ProcessesView {
        ProcessesView {
            idle_icon: self.idle_icon@,
            idle_text: self.idle_text@,
            process_map: self.process_map@.map_values(|e: ProcessEntry| e@),
        }
    }
}

impl View for DiscordConfig {
    type V = DiscordView;

    open spec fn view(&self) -> DiscordView {
        DiscordView {
            client_id: self.client_id,
            details: self.details@,
            state: self.state@,
            large_image: self.assets.large_image@,
            large_text: self.assets.large_text@,
            small_image: self.assets.small_image@,
            small_text: self.assets.small_text@,
            btn1_text: self.buttons.btn1_text@,
            btn1_url: self.buttons.btn1_url@,
            btn2_text: self.buttons.btn2_text@,
            btn2_url: self.buttons.btn2_url@,
        }
    }
}

impl View for Config {
    type V = ConfigView;

    open spec fn view(&self) -> ConfigView {
        ConfigView { processes: self.processes@, discord: self.discord@ }
    }
}

/// The built-in presence section: no client id and every text unset.
pub open spec fn default_discord() -> DiscordView {
    DiscordView {
        client_id: 0,
        details: Seq::empty(),
        state: Seq::empty(),
        large_image: Seq::empty(),
        large_text: Seq::empty(),
        small_image: Seq::empty(),
        small_text: Seq::empty(),
        btn1_text: Seq::empty(),
        btn1_url: Seq::empty(),
        btn2_text: Seq::empty(),
        btn2_url: Seq::empty(),
    }
}

/// The built-in configuration: empty idle texts, an empty process table and
/// the built-in presence section.
pub open spec fn default_config() -> ConfigView {
    ConfigView {
        processes: ProcessesView {
            idle_icon: Seq::empty(),
            idle_text: Seq::empty(),
            process_map: Seq::empty(),
        },
        discord: default_discord(),
    }
}

impl Default for Assets {
    fn default() -> (r: Assets)
        ensures
            r.large_image@ == Seq::<char>::empty(),
            r.large_text@ == Seq::<char>::empty(),
            r.small_image@ == Seq::<char>::empty(),
            r.small_text@ == Seq::<char>::empty(),
    {
        Assets {
            large_image: String::new(),
            large_text: String::new(),
            small_image: String::new(),
            small_text: String::new(),
        }
    }
}

impl Default for Buttons {
    fn default() -> (r: Buttons)
        ensures
            r.btn1_text@ == Seq::<char>::empty(),
            r.btn1_url@ == Seq::<char>::empty(),
            r.btn2_text@ == Seq::<char>::empty(),
            r.btn2_url@ == Seq::<char>::empty(),
    {
        Buttons {
            btn1_text: String::new(),
            btn1_url: String::new(),
            btn2_text: String::new(),
            btn2_url: String::new(),
        }
    }
}

impl Default for DiscordConfig {
    fn default() -> (r: DiscordConfig)
        ensures
            r@ == default_discord(),
    {
        DiscordConfig {
            client_id: 0,
            details: String::new(),
            state: String::new(),
            assets: Assets::default(),
            buttons: Buttons::default(),
        }
    }
}

impl Default for ProcessesConfig {
    fn default() -> (r: ProcessesConfig)
        ensures
            r@ == default_config().processes,
    {
        let r = ProcessesConfig {
            idle_icon: String::new(),
            idle_text: String::new(),
            process_map: Vec::new(),
        };
        assert(r@.process_map =~= Seq::<ProcessEntryView>::empty());
        r
    }
}

impl Default for Config {
    fn default() -> (r: Config)
        ensures
            r@ == default_config(),
    {
        Config { processes: ProcessesConfig::default(), discord: DiscordConfig::default() }
    }
}

impl Assets {
    /// The asset group counts as present only when none of its fields is
    /// empty.
    pub open spec fn spec_is_empty(&self) -> bool {
        self.large_image@.len() == 0 || self.large_text@.len() == 0 || self.small_image@.len()
            == 0 || self.small_text@.len() == 0
    }

    #[verifier::when_used_as_spec(spec_is_empty)]
    pub fn is_empty(&self) -> (r: bool)
        ensures
            r == self.spec_is_empty(),
    {
        self.large_image.as_str().is_empty() || self.large_text.as_str().is_empty()
            || self.small_image.as_str().is_empty() || self.small_text.as_str().is_empty()
    }
}

impl Buttons {
    /// The button group counts as present only when none of its fields is
    /// empty.
    pub open spec fn spec_is_empty(&self) -> bool {
        self.btn1_text@.len() == 0 || self.btn1_url@.len() == 0 || self.btn2_text@.len() == 0
            || self.btn2_url@.len() == 0
    }

    #[verifier::when_used_as_spec(spec_is_empty)]
    pub fn is_empty(&self) -> (r: bool)
        ensures
            r == self.spec_is_empty(),
    {
        self.btn1_text.as_str().is_empty() || self.btn1_url.as_str().is_empty()
            || self.btn2_text.as_str().is_empty() || self.btn2_url.as_str().is_empty()
    }

    /// The first button is unusable when its label or its URL is empty.
    pub fn btn1_is_empty(&self) -> (r: bool)
        ensures
            r == (self.btn1_text@.len() == 0 || self.btn1_url@.len() == 0),
    {
        self.btn1_text.as_str().is_empty() || self.btn1_url.as_str().is_empty()
    }

    /// The second button is unusable when its label or its URL is empty.
    pub fn btn2_is_empty(&self) -> (r: bool)
        ensures
            r == (self.btn2_text@.len() == 0 || self.btn2_url@.len() == 0),
    {
        self.btn2_text.as_str().is_empty() || self.btn2_url.as_str().is_empty()
    }
}

/// An optional text as an optional sequence.
pub open spec fn opt_view(o: Option<String>) -> Option<Seq<char>> {
    match o {
        Some(s) => Some(s@),
        None => None,
    }
}

/// The directory that holds the configuration file, under the platform's
/// configuration directory `base`, or relative to the working directory when
/// there is none.
pub open spec fn config_dir_spec(base: Option<Seq<char>>) -> Seq<char> {
    match base {
        Some(b) => b + "/ddrpc"@,
        None => "./ddrpc"@,
    }
}

/// The path of the configuration file.
pub open spec fn config_file_spec(base: Option<Seq<char>>) -> Seq<char> {
    config_dir_spec(base) + "/ddrpc.toml"@
}

/// Relies on dirs::config_dir: the user's configuration directory when the
/// platform offers one. It depends on the environment, so nothing is stated
/// of it; a path that is not valid UTF-8 counts as none.
#[verifier::external_body]
fn platform_config_dir() -> (r: Option<String>) {
    match dirs::config_dir() {
        Some(p) => match p.to_str() {
            Some(s) => Some(s.to_owned()),
            None => None,
        },
        None => None,
    }
}

/// The configuration directory under `base`, or `./ddrpc` without one.
pub fn config_dir_from(base: Option<String>) -> (r: String)
    ensures
        r@ == config_dir_spec(opt_view(base)),
{
    match base {
        Some(b) => {
            let mut d = b;
            d.append("/ddrpc");
            d
        },
        None => "./ddrpc".to_owned(),
    }
}

/// The configuration file path under `base`.
pub fn config_file_from(base: Option<String>) -> (r: String)
    ensures
        r@ == config_file_spec(opt_view(base)),
{
    let mut f = config_dir_from(base);
    f.append("/ddrpc.toml");
    f
}

/// The directory of the configuration file on this machine.
pub fn generate_config_dir_path() -> (r: String)
    ensures
        exists|b: Option<Seq<char>>| r@ == #[trigger] config_dir_spec(b),
{
    let base = platform_config_dir();
    let r = config_dir_from(base);
    assert(r@ == config_dir_spec(opt_view(base)));
    r
}

/// The path of the configuration file on this machine.
pub fn generate_config_file_path() -> (r: String)
    ensures
        exists|b: Option<Seq<char>>| r@ == #[trigger] config_file_spec(b),
{
    let base = platform_config_dir();
    let r = config_file_from(base);
    assert(r@ == config_file_spec(opt_view(base)));
    r
}

/// Why the stored configuration cannot be used at all.
pub enum ConfigError {
    /// The file's bytes are not UTF-8 text.
    InvalidUtf8,
}

/// Relies on String::from_utf8: the decoded text when the bytes are valid
/// UTF-8, and an error otherwise.
#[verifier::external_body]
fn utf8_text(bytes: Vec<u8>) -> (r: Option<String>)
    ensures
        r is Some <==> vstd::utf8::valid_utf8(bytes@),
        r matches Some(s) ==> s@ == vstd::utf8::decode_utf8(bytes@),
{
    String::from_utf8(bytes).ok()
}

/// Decodes the bytes of the configuration file; bytes that are not UTF-8
/// are refused.
pub fn decode_config_text(bytes: Vec<u8>) -> (r: Result<String, ConfigError>)
    ensures
        r is Ok <==> vstd::utf8::valid_utf8(bytes@),
        r matches Ok(s) ==> s@ == vstd::utf8::decode_utf8(bytes@),
{
    match utf8_text(bytes) {
        Some(s) => Ok(s),
        None => Err(ConfigError::InvalidUtf8),
    }
}

/// What was found at the configuration path.
pub enum StoredConfig {
    /// No file.
    Absent,
    /// A file whose text parsed as a configuration.
    Parsed(Config),
    /// A file whose text did not parse.
    Malformed,
}

/// The configuration to use, and whether the stored file is to be removed.
pub enum LoadOutcome {
    /// Use this configuration; the disk is left as it is.
    Ready(Config),
    /// The stored file is invalid: remove it, then use this configuration.
    Regenerated(Config),
}

/// Decides on a parsed file: a configuration that parsed is used as it is;
/// one that did not is replaced by the built-in configuration, and the file
/// is to be removed.
pub fn verify_config_integrity(parsed: Option<Config>) -> (r: LoadOutcome)
    ensures
        parsed matches Some(c) ==> r == LoadOutcome::Ready(c),
        parsed is None ==> (r matches LoadOutcome::Regenerated(d) && d@ == default_config()),
{
    match parsed {
        Some(c) => LoadOutcome::Ready(c),
        None => LoadOutcome::Regenerated(Config::default()),
    }
}

/// Decides what configuration to start with. Without a file the built-in
/// configuration is used and nothing is written; a file that parsed is used;
/// an invalid one is to be removed and the built-in configuration used.
pub fn initialize_config(stored: StoredConfig) -> (r: LoadOutcome)
    ensures
        stored is Absent ==> (r matches LoadOutcome::Ready(d) && d@ == default_config()),
        stored matches StoredConfig::Parsed(c) ==> r == LoadOutcome::Ready(c),
        stored is Malformed ==> (r matches LoadOutcome::Regenerated(d) && d@ == default_config()),
{
    match stored {
        StoredConfig::Absent => LoadOutcome::Ready(Config::default()),
        StoredConfig::Parsed(c) => verify_config_integrity(Some(c)),
        StoredConfig::Malformed => verify_config_integrity(None),
    }
}

/// The text shown for a field: the field itself, or `<None>` when it is
/// empty.
pub fn shown_or_none(s: &String) -> (r: String)
    ensures
        s@.len() == 0 ==> r@ == "<None>"@,
        s@.len() > 0 ==> r@ == s@,
{
    if s.as_str().is_empty() {
        "<None>".to_owned()
    } else {
        s.clone()
    }
}

/// New values for the presence section, as given on the command line.
pub struct CliDiscordSet {
    pub client_id: Option<u64>,
    pub details: Option<String>,
    pub state: Option<String>,
    pub large_image: Option<String>,
    pub large_text: Option<String>,
    pub small_image: Option<String>,
    pub small_text: Option<String>,
    pub button1_text: Option<String>,
    pub button1_url: Option<String>,
    pub button2_text: Option<String>,
    pub button2_url: Option<String>,
}

/// A given value, else the current one.
pub open spec fn or_keep(given: Option<String>, current: Seq<char>) -> Seq<char> {
    match given {
        Some(v) => v@,
        None => current,
    }
}

/// The presence section after the overrides of `arg`. The client id and the
/// details always take a given value. The state and the asset fields take
/// one only when the asset group is present (none of its fields empty), and
/// the button fields only when the button group is present.
pub open spec fn overridden(d: DiscordView, arg: CliDiscordSet) -> DiscordView {
    let assets_present = d.large_image.len() > 0 && d.large_text.len() > 0 && d.small_image.len()
        > 0 && d.small_text.len() > 0;
    let buttons_present = d.btn1_text.len() > 0 && d.btn1_url.len() > 0 && d.btn2_text.len() > 0
        && d.btn2_url.len() > 0;
    DiscordView {
        client_id: match arg.client_id {
            Some(id) => id,
            None => d.client_id,
        },
        details: or_keep(arg.details, d.details),
        state: if assets_present { or_keep(arg.state, d.state) } else { d.state },
        large_image: if assets_present { or_keep(arg.large_image, d.large_image) } else { d.large_image },
        large_text: if assets_present { or_keep(arg.large_text, d.large_text) } else { d.large_text },
        small_image: if assets_present { or_keep(arg.small_image, d.small_image) } else { d.small_image },
        small_text: if assets_present { or_keep(arg.small_text, d.small_text) } else { d.small_text },
        btn1_text: if buttons_present { or_keep(arg.button1_text, d.btn1_text) } else { d.btn1_text },
        btn1_url: if buttons_present { or_keep(arg.button1_url, d.btn1_url) } else { d.btn1_url },
        btn2_text: if buttons_present { or_keep(arg.button2_text, d.btn2_text) } else { d.btn2_text },
        btn2_url: if buttons_present { or_keep(arg.button2_url, d.btn2_url) } else { d.btn2_url },
    }
}

/// Replaces `slot` by the given value, if any.
fn set_if_given(slot: &mut String, given: Option<String>)
    ensures
        final(slot)@ == or_keep(given, old(slot)@),
{
    if let Some(v) = given {
        *slot = v;
    }
}

/// Applies the command-line overrides to the presence section. The caller
/// writes the configuration back to disk afterwards.
pub fn set_activity_data(config: &mut Config, arg: CliDiscordSet)
    ensures
        final(config)@.processes == old(config)@.processes,
        final(config)@.discord == overridden(old(config)@.discord, arg),
{
    let CliDiscordSet {
        client_id,
        details,
        state,
        large_image,
        large_text,
        small_image,
        small_text,
        button1_text,
        button1_url,
        button2_text,
        button2_url,
    } = arg;
    if let Some(id) = client_id {
        config.discord.client_id = id;
    }
    set_if_given(&mut config.discord.details, details);
    if !config.discord.assets.is_empty() {
        set_if_given(&mut config.discord.assets.large_image, large_image);
        set_if_given(&mut config.discord.assets.large_text, large_text);
        set_if_given(&mut config.discord.assets.small_image, small_image);
        set_if_given(&mut config.discord.assets.small_text, small_text);
        set_if_given(&mut config.discord.state, state);
    }
    if !config.discord.buttons.is_empty() {
        set_if_given(&mut config.discord.buttons.btn1_text, button1_text);
        set_if_given(&mut config.discord.buttons.btn1_url, button1_url);
        set_if_given(&mut config.discord.buttons.btn2_text, button2_text);
        set_if_given(&mut config.discord.buttons.btn2_url, button2_url);
    }
}

} // verus!
