//! The patch trait and the ordered list of patches that a configuration enables.
use crate::config::PatchConfig;
use crate::patcher::branding::{DiscordRebranding, NitroRebranding, ServerToGuild, TitleRebranding};
use crate::patcher::experiments::EnableDevExperiments;
use crate::patcher::features::{
    FastIdentifyFix, GatewayReconnectPatch, NoXssWarning, PreventLocalStorageDeletion,
    RemoveQrCodeLogin,
};
use crate::patcher::infrastructure::{SentryRedirect, StatusPageRedirect};
use vstd::prelude::*;

verus! {

/// A transformation of the text of a script or stylesheet.
pub trait Patch {
    /// What the patch makes of `content`.
    spec fn transform(&self, content: Seq<char>) -> Seq<char>;

    /// A short name for logs.
    fn name(&self) -> &'static str;

    fn apply(&self, content: &str) -> (r: String)
        ensures
            r@ == self.transform(content@),
    ;
}

/// One of the patches, as the pipeline holds it.
pub enum PatchStep {
    Nitro(NitroRebranding),
    Discord(DiscordRebranding),
    Title(TitleRebranding),
    Guild(ServerToGuild),
    Sentry(SentryRedirect),
    StatusPage(StatusPageRedirect),
    LocalStorage(PreventLocalStorageDeletion),
    FastIdentify(FastIdentifyFix),
    Reconnect(GatewayReconnectPatch),
    QrLogin(RemoveQrCodeLogin),
    XssWarning(NoXssWarning),
    DevExperiments(EnableDevExperiments),
}

impl Patch for PatchStep {
    open spec fn transform(&self, content: Seq<char>) -> Seq<char> {
        match self {
            PatchStep::Nitro(p) => p.transform(content),
            PatchStep::Discord(p) => p.transform(content),
            PatchStep::Title(p) => p.transform(content),
            PatchStep::Guild(p) => p.transform(content),
            PatchStep::Sentry(p) => p.transform(content),
            PatchStep::StatusPage(p) => p.transform(content),
            PatchStep::LocalStorage(p) => p.transform(content),
            PatchStep::FastIdentify(p) => p.transform(content),
            PatchStep::Reconnect(p) => p.transform(content),
            PatchStep::QrLogin(p) => p.transform(content),
            PatchStep::XssWarning(p) => p.transform(content),
            PatchStep::DevExperiments(p) => p.transform(content),
        }
    }

    fn name(&self) -> &'static str {
        match self {
            PatchStep::Nitro(p) => p.name(),
            PatchStep::Discord(p) => p.name(),
            PatchStep::Title(p) => p.name(),
            PatchStep::Guild(p) => p.name(),
            PatchStep::Sentry(p) => p.name(),
            PatchStep::StatusPage(p) => p.name(),
            PatchStep::LocalStorage(p) => p.name(),
            PatchStep::FastIdentify(p) => p.name(),
            PatchStep::Reconnect(p) => p.name(),
            PatchStep::QrLogin(p) => p.name(),
            PatchStep::XssWarning(p) => p.name(),
            PatchStep::DevExperiments(p) => p.name(),
        }
    }

    fn apply(&self, content: &str) -> (r: String) {
        match self {
            PatchStep::Nitro(p) => p.apply(content),
            PatchStep::Discord(p) => p.apply(content),
            PatchStep::Title(p) => p.apply(content),
            PatchStep::Guild(p) => p.apply(content),
            PatchStep::Sentry(p) => p.apply(content),
            PatchStep::StatusPage(p) => p.apply(content),
            PatchStep::LocalStorage(p) => p.apply(content),
            PatchStep::FastIdentify(p) => p.apply(content),
            PatchStep::Reconnect(p) => p.apply(content),
            PatchStep::QrLogin(p) => p.apply(content),
            PatchStep::XssWarning(p) => p.apply(content),
            PatchStep::DevExperiments(p) => p.apply(content),
        }
    }
}

pub open spec fn push_if(steps: Seq<PatchStep>, on: bool, step: PatchStep) -> Seq<PatchStep> {
    if on {
        steps.push(step)
    } else {
        steps
    }
}

/// The patches that `config` switches on, in their fixed order.
pub open spec fn enabled_steps(config: PatchConfig) -> Seq<PatchStep> {
    let t = config.patches;
    let b = config.branding;
    let s = push_if(
        Seq::empty(),
        t.nitro_rebranding,
        PatchStep::Nitro(NitroRebranding { instance_name: b.instance_name }),
    );
    let s = push_if(
        s,
        t.discord_rebranding,
        PatchStep::Discord(DiscordRebranding { instance_name: b.instance_name }),
    );
    let s = push_if(
        s,
        t.title_rebranding,
        PatchStep::Title(TitleRebranding { instance_name: b.instance_name }),
    );
    let s = push_if(s, t.server_to_guild, PatchStep::Guild(ServerToGuild));
    let s = push_if(
        s,
        t.sentry_redirect,
        PatchStep::Sentry(SentryRedirect { target_url: b.sentry_url }),
    );
    let s = push_if(
        s,
        t.status_page_redirect,
        PatchStep::StatusPage(StatusPageRedirect { target_url: b.status_url }),
    );
    let s = push_if(
        s,
        t.prevent_localstorage_deletion,
        PatchStep::LocalStorage(PreventLocalStorageDeletion),
    );
    let s = push_if(s, t.fast_identify, PatchStep::FastIdentify(FastIdentifyFix));
    let s = push_if(s, t.gateway_reconnect, PatchStep::Reconnect(GatewayReconnectPatch));
    let s = push_if(s, t.remove_qr_login, PatchStep::QrLogin(RemoveQrCodeLogin));
    let s = push_if(s, t.no_xss_warning, PatchStep::XssWarning(NoXssWarning));
    push_if(s, t.enable_dev_experiments, PatchStep::DevExperiments(EnableDevExperiments))
}

/// `content` after each of `steps`, in order.
pub open spec fn run_steps(steps: Seq<PatchStep>, content: Seq<char>) -> Seq<char>
    decreases steps.len(),
{
    if steps.len() == 0 {
        content
    } else {
        steps.last().transform(run_steps(steps.drop_last(), content))
    }
}

/// The patches that a configuration enables, applied in a fixed order.
pub struct PatchPipeline {
    patches: Vec<PatchStep>,
}

impl PatchPipeline {
    /// The patches, in the order in which they run.
    pub closed spec fn steps(&self) -> Seq<PatchStep> {
        self.patches@
    }

    pub fn new(config: &PatchConfig) -> (r: Self)
        ensures
            r.steps() == enabled_steps(*config),
    {
        let t = &config.patches;
        let b = &config.branding;
        let mut patches: Vec<PatchStep> = Vec::new();
        assert(patches@ =~= Seq::<PatchStep>::empty());
        if t.nitro_rebranding {
            patches.push(
                PatchStep::Nitro(NitroRebranding { instance_name: b.instance_name.clone() }),
            );
        }
        if t.discord_rebranding {
            patches.push(
                PatchStep::Discord(DiscordRebranding { instance_name: b.instance_name.clone() }),
            );
        }
        if t.title_rebranding {
            patches.push(
                PatchStep::Title(TitleRebranding { instance_name: b.instance_name.clone() }),
            );
        }
        if t.server_to_guild {
            patches.push(PatchStep::Guild(ServerToGuild));
        }
        if t.sentry_redirect {
            patches.push(PatchStep::Sentry(SentryRedirect { target_url: b.sentry_url.clone() }));
        }
        if t.status_page_redirect {
            patches.push(
                PatchStep::StatusPage(StatusPageRedirect { target_url: b.status_url.clone() }),
            );
        }
        if t.prevent_localstorage_deletion {
            patches.push(PatchStep::LocalStorage(PreventLocalStorageDeletion));
        }
        if t.fast_identify {
            patches.push(PatchStep::FastIdentify(FastIdentifyFix));
        }
        if t.gateway_reconnect {
            patches.push(PatchStep::Reconnect(GatewayReconnectPatch));
        }
        if t.remove_qr_login {
            patches.push(PatchStep::QrLogin(RemoveQrCodeLogin));
        }
        if t.no_xss_warning {
            patches.push(PatchStep::XssWarning(NoXssWarning));
        }
        if t.enable_dev_experiments {
            patches.push(PatchStep::DevExperiments(EnableDevExperiments));
        }
        PatchPipeline { patches }
    }

    /// The number of patches that run.
    pub fn len(&self) -> (r: usize)
        ensures
            r == self.steps().len(),
    {
        self.patches.len()
    }

    /// `content` after every patch of the pipeline, in order.
    pub fn patch_content(&self, content: &str) -> (r: String)
        ensures
            r@ == run_steps(self.steps(), content@),
    {
        let mut result = content.to_owned();
        let mut i: usize = 0;
        assert(self.patches@.take(0) =~= Seq::<PatchStep>::empty());
        while i < self.patches.len()
            invariant
                i <= self.patches.len(),
                result@ == run_steps(self.patches@.take(i as int), content@),
            decreases self.patches.len() - i,
        {
            assert(self.patches@.take(i + 1).drop_last() =~= self.patches@.take(i as int));
            result = self.patches[i].apply(result.as_str());
            i = i + 1;
        }
        assert(self.patches@.take(i as int) =~= self.patches@);
        result
    }
}

} // verus!
