//! Reconciliation of the presence: expand the configured texts, compare them
//! with what was last pushed, and say what, if anything, is to be sent.
use vstd::prelude::*;

use crate::config::{
    Assets, Buttons, Config, ConfigView, DiscordConfig, DiscordView, default_discord, opt_view,
};
use crate::template::{
    TemplateMapping, expand, names_view, replace_template_variables, template_hashmap,
    template_vars,
};

verus! {

/// The asset part of an outgoing activity; an absent field is not sent.
pub struct AssetsPayload {
    pub large_image: Option<String>,
    pub large_text: Option<String>,
    pub small_image: Option<String>,
    pub small_text: Option<String>,
}

/// One outgoing button.
pub struct ButtonPayload {
    pub label: String,
    pub url: String,
}

/// The activity handed to the presence channel; an absent part is not sent.
pub struct ActivityPayload {
    pub details: Option<String>,
    pub state: Option<String>,
    pub assets: Option<AssetsPayload>,
    pub buttons: Option<Vec<ButtonPayload>>,
}

/// The asset part as plain values.
pub struct AssetsPayloadView {
    pub large_image: Option<Seq<char>>,
    pub large_text: Option<Seq<char>>,
    pub small_image: Option<Seq<char>>,
    pub small_text: Option<Seq<char>>,
}

/// An outgoing activity as plain values; each button is a label and a URL.
pub struct PayloadView {
    pub details: Option<Seq<char>>,
    pub state: Option<Seq<char>>,
    pub assets: Option<AssetsPayloadView>,
    pub buttons: Option<Seq<(Seq<char>, Seq<char>)>>,
}

impl View for AssetsPayload {
    type V = AssetsPayloadView;

    open spec fn view(&self) -> AssetsPayloadView {
        AssetsPayloadView {
            large_image: opt_view(self.large_image),
            large_text: opt_view(self.large_text),
            small_image: opt_view(self.small_image),
            small_text: opt_view(self.small_text),
        }
    }
}

impl View for ActivityPayload {
    type V = PayloadView;

    open spec fn view(&self) -> PayloadView {
        PayloadView {
            details: opt_view(self.details),
            state: opt_view(self.state),
            assets: match self.assets {
                Some(a) => Some(a@),
                None => None,
            },
            buttons: match self.buttons {
                Some(b) => Some(b@.map_values(|x: ButtonPayload| (x.label@, x.url@))),
                None => None,
            },
        }
    }
}

/// An activity, if there is one, as plain values.
pub open spec fn payload_opt_view(p: Option<ActivityPayload>) -> Option<PayloadView> {
    match p {
        Some(a) => Some(a@),
        None => None,
    }
}

/// Every text of the presence section expanded through the mapping; the
/// client id is kept.
pub open spec fn expand_presence(d: DiscordView, m: Seq<(Seq<char>, Seq<char>)>) -> DiscordView {
    DiscordView {
        client_id: d.client_id,
        details: expand(m, d.details),
        state: expand(m, d.state),
        large_image: expand(m, d.large_image),
        large_text: expand(m, d.large_text),
        small_image: expand(m, d.small_image),
        small_text: expand(m, d.small_text),
        btn1_text: expand(m, d.btn1_text),
        btn1_url: expand(m, d.btn1_url),
        btn2_text: expand(m, d.btn2_text),
        btn2_url: expand(m, d.btn2_url),
    }
}

/// The expanded value of a field whose configured text is not empty.
pub open spec fn sent_if_set(configured: Seq<char>, expanded: Seq<char>) -> Option<Seq<char>> {
    if configured.len() > 0 {
        Some(expanded)
    } else {
        None
    }
}

/// The buttons to send: each slot whose configured label and URL are both
/// set, in slot order.
pub open spec fn buttons_sent(c: DiscordView, e: DiscordView) -> Seq<(Seq<char>, Seq<char>)> {
    let first: Seq<(Seq<char>, Seq<char>)> = if c.btn1_text.len() > 0 && c.btn1_url.len() > 0 {
        seq![(e.btn1_text, e.btn1_url)]
    } else {
        Seq::empty()
    };
    if c.btn2_text.len() > 0 && c.btn2_url.len() > 0 {
        first.push((e.btn2_text, e.btn2_url))
    } else {
        first
    }
}

/// Some asset field is configured.
pub open spec fn any_asset_set(c: DiscordView) -> bool {
    c.large_image.len() > 0 || c.large_text.len() > 0 || c.small_image.len() > 0
        || c.small_text.len() > 0
}

/// The activity built from the configured section `c` and its expansion `e`:
/// each field, asset and button appears exactly when its configured text is
/// set, with its expanded value.
pub open spec fn payload_of(c: DiscordView, e: DiscordView) -> PayloadView {
    PayloadView {
        details: sent_if_set(c.details, e.details),
        state: sent_if_set(c.state, e.state),
        assets: if any_asset_set(c) {
            Some(
                AssetsPayloadView {
                    large_image: sent_if_set(c.large_image, e.large_image),
                    large_text: sent_if_set(c.large_text, e.large_text),
                    small_image: sent_if_set(c.small_image, e.small_image),
                    small_text: sent_if_set(c.small_text, e.small_text),
                },
            )
        } else {
            None
        },
        buttons: if buttons_sent(c, e).len() > 0 {
            Some(buttons_sent(c, e))
        } else {
            None
        },
    }
}

/// The presence that a tick computes from a configuration and the running
/// programs.
pub open spec fn tick_expanded(c: ConfigView, running: Seq<Seq<char>>) -> DiscordView {
    expand_presence(c.discord, template_vars(c.processes, running))
}

/// One tick from the last pushed presence: the presence kept afterwards and
/// the activity to send, if any. Nothing is sent when the expansion equals
/// what was last pushed.
pub open spec fn tick_outcome(last: DiscordView, c: ConfigView, running: Seq<Seq<char>>) -> (DiscordView, Option<PayloadView>) {
    let e = tick_expanded(c, running);
    if e == last {
        (last, None)
    } else {
        (e, Some(payload_of(c.discord, e)))
    }
}

/// A presence channel together with the presence last pushed through it.
pub struct DiscordClientWrapper<C> {
    pub client: C,
    pub replaced_data: DiscordConfig,
}

/// Pairs a connected channel with an empty last-pushed presence.
pub fn client_init<C>(client: C) -> (r: DiscordClientWrapper<C>)
    ensures
        r.client == client,
        r.replaced_data@ == default_discord(),
{
    DiscordClientWrapper { client, replaced_data: DiscordConfig::default() }
}

/// Clones a text.
fn copy_text(s: &String) -> (r: String)
    ensures
        r@ == s@,
{
    s.clone()
}

/// The expanded value of a field when its configured text is set.
fn field_if_set(configured: &String, expanded: &String) -> (r: Option<String>)
    ensures
        opt_view(r) == sent_if_set(configured@, expanded@),
{
    if configured.as_str().is_empty() {
        None
    } else {
        Some(copy_text(expanded))
    }
}

impl DiscordConfig {
    /// A copy of the section with every text expanded through the mapping.
    pub fn replace_templates(&self, template_hashmap: &TemplateMapping) -> (r: DiscordConfig)
        ensures
            r@ == expand_presence(self@, template_hashmap@),
    {
        let m = template_hashmap;
        DiscordConfig {
            client_id: self.client_id,
            details: replace_template_variables(m, copy_text(&self.details)),
            state: replace_template_variables(m, copy_text(&self.state)),
            assets: Assets {
                large_image: replace_template_variables(m, copy_text(&self.assets.large_image)),
                large_text: replace_template_variables(m, copy_text(&self.assets.large_text)),
                small_image: replace_template_variables(m, copy_text(&self.assets.small_image)),
                small_text: replace_template_variables(m, copy_text(&self.assets.small_text)),
            },
            buttons: Buttons {
                btn1_text: replace_template_variables(m, copy_text(&self.buttons.btn1_text)),
                btn1_url: replace_template_variables(m, copy_text(&self.buttons.btn1_url)),
                btn2_text: replace_template_variables(m, copy_text(&self.buttons.btn2_text)),
                btn2_url: replace_template_variables(m, copy_text(&self.buttons.btn2_url)),
            },
        }
    }

    /// Whether two sections hold the same client id and the same texts.
    pub fn same_as(&self, other: &DiscordConfig) -> (r: bool)
        ensures
            r == (self@ == other@),
    {
        self.client_id == other.client_id && self.details == other.details && self.state
            == other.state && self.assets.large_image == other.assets.large_image
            && self.assets.large_text == other.assets.large_text && self.assets.small_image
            == other.assets.small_image && self.assets.small_text == other.assets.small_text
            && self.buttons.btn1_text == other.buttons.btn1_text && self.buttons.btn1_url
            == other.buttons.btn1_url && self.buttons.btn2_text == other.buttons.btn2_text
            && self.buttons.btn2_url == other.buttons.btn2_url
    }
}

/// The activity for the configured section `config` whose expansion is
/// `expanded`.
pub fn activity_payload(config: &DiscordConfig, expanded: &DiscordConfig) -> (r: ActivityPayload)
    ensures
        r@ == payload_of(config@, expanded@),
{
    let c = config;
    let e = expanded;
    let assets = if c.assets.large_image.as_str().is_empty() && c.assets.large_text.as_str().is_empty()
        && c.assets.small_image.as_str().is_empty() && c.assets.small_text.as_str().is_empty() {
        None
    } else {
        Some(
            AssetsPayload {
                large_image: field_if_set(&c.assets.large_image, &e.assets.large_image),
                large_text: field_if_set(&c.assets.large_text, &e.assets.large_text),
                small_image: field_if_set(&c.assets.small_image, &e.assets.small_image),
                small_text: field_if_set(&c.assets.small_text, &e.assets.small_text),
            },
        )
    };
    let mut buttons: Vec<ButtonPayload> = Vec::new();
    if !c.buttons.btn1_is_empty() {
        buttons.push(
            ButtonPayload {
                label: copy_text(&e.buttons.btn1_text),
                url: copy_text(&e.buttons.btn1_url),
            },
        );
    }
    if !c.buttons.btn2_is_empty() {
        buttons.push(
            ButtonPayload {
                label: copy_text(&e.buttons.btn2_text),
                url: copy_text(&e.buttons.btn2_url),
            },
        );
    }
    assert(buttons@.map_values(|x: ButtonPayload| (x.label@, x.url@)) =~= buttons_sent(c@, e@));
    let buttons = if buttons.len() == 0 {
        None
    } else {
        Some(buttons)
    };
    ActivityPayload {
        details: field_if_set(&c.details, &e.details),
        state: field_if_set(&c.state, &e.state),
        assets,
        buttons,
    }
}

/// One tick: expands the configured presence with the running programs and
/// compares it with the presence last pushed. When they are equal the wrapper
/// comes back unchanged and nothing is to be sent; otherwise the new presence
/// is kept and the activity built from it is returned, to be sent.
pub fn set_activity<C>(client_wrapper: DiscordClientWrapper<C>, config: &Config, running: &Vec<String>) -> (r: (DiscordClientWrapper<C>, Option<ActivityPayload>))
    ensures
        r.0.client == client_wrapper.client,
        (r.0.replaced_data@, payload_opt_view(r.1)) == tick_outcome(
            client_wrapper.replaced_data@,
            config@,
            names_view(running@),
        ),
{
    let mapping = template_hashmap(config, running);
    let replaced_data = config.discord.replace_templates(&mapping);
    if replaced_data.same_as(&client_wrapper.replaced_data) {
        return (client_wrapper, None);
    }
    let activity = activity_payload(&config.discord, &replaced_data);
    let DiscordClientWrapper { client, replaced_data: _ } = client_wrapper;
    (DiscordClientWrapper { client, replaced_data }, Some(activity))
}

/// A tick after a reload of the configuration. When the reload failed
/// (`None`) the configuration in hand is kept and nothing is to be sent;
/// otherwise the reloaded configuration replaces it and the tick runs on it.
pub fn update_activity<C>(config: &mut Config, client: DiscordClientWrapper<C>, reloaded: Option<Config>, running: &Vec<String>) -> (r: (DiscordClientWrapper<C>, Option<ActivityPayload>))
    ensures
        reloaded is None ==> *final(config) == *old(config) && r.0 == client && r.1 is None,
        reloaded matches Some(c) ==> *final(config) == c && r.0.client == client.client && (
        r.0.replaced_data@,
        payload_opt_view(r.1),
        ) == tick_outcome(client.replaced_data@, c@, names_view(running@)),
{
    match reloaded {
        None => (client, None),
        Some(c) => {
            *config = c;
            set_activity(client, config, running)
        },
    }
}

/// A second tick on the same configuration and the same running programs
/// sends nothing: after the first tick the kept presence already equals the
/// expansion. The first tick sends exactly when its expansion differs from
/// what was pushed before.
pub proof fn lemma_tick_idempotent(last: DiscordView, c: ConfigView, running: Seq<Seq<char>>)
    ensures
        tick_outcome(last, c, running).1 is Some <==> tick_expanded(c, running) != last,
        tick_outcome(tick_outcome(last, c, running).0, c, running) == (
        tick_outcome(last, c, running).0,
        None::<PayloadView>,
        ),
{
}

/// Changing only the configured details between two ticks, to a set text
/// whose expansion differs from the old one, makes the second tick send
/// once more; the activity it sends differs from the one for the old
/// configuration in the details alone.
pub proof fn lemma_tick_sends_changed_details(
    last: DiscordView,
    c: ConfigView,
    details: Seq<char>,
    running: Seq<Seq<char>>,
)
    requires
        details.len() > 0,
        expand(template_vars(c.processes, running), details) != expand(
            template_vars(c.processes, running),
            c.discord.details,
        ),
    ensures
        ({
            let c2 = ConfigView { discord: DiscordView { details, ..c.discord }, ..c };
            let kept = tick_outcome(last, c, running).0;
            let e2 = tick_expanded(c2, running);
            let new_details = expand(template_vars(c.processes, running), details);
            &&& kept == tick_expanded(c, running)
            &&& e2 == DiscordView { details: new_details, ..kept }
            &&& tick_outcome(kept, c2, running) == (
                e2,
                Some(PayloadView { details: Some(new_details), ..payload_of(c.discord, kept) }),
            )
        }),
{
    let c2 = ConfigView { discord: DiscordView { details, ..c.discord }, ..c };
    let kept = tick_outcome(last, c, running).0;
    let e2 = tick_expanded(c2, running);
    assert(e2.details != kept.details);
    assert(buttons_sent(c2.discord, e2) == buttons_sent(c.discord, kept));
}

/// An asset field that is set is sent even where another field of the asset
/// group is empty, and the empty one is left out: fields are sent one by one,
/// not by group.
pub proof fn lemma_partial_assets(c: DiscordView, e: DiscordView)
    requires
        c.large_image.len() > 0,
        c.large_text.len() == 0,
    ensures
        payload_of(c, e).assets matches Some(a) && a.large_image == Some(e.large_image)
            && a.large_text is None,
{
}

} // verus!
