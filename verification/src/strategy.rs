//! The mediation policy of one invocation: whether it runs or is only shown,
//! how the user's consent is obtained, and whether privileges are raised.

use vstd::prelude::*;
use crate::config::{Config, ConfigView};
use crate::invocation::{Invocation, InvocationView};
use crate::text::{clone_words, extend_words, word, words};

verus! {

/// Whether an invocation runs.
#[derive(Clone, Copy, Debug, PartialEq, Eq, Structural)]
pub enum ExecMode {
    /// Show the command that would run; spawn nothing.
    DryRun,
    /// Run the command.
    Run,
    /// Run the command without asking for consent: for read-only probes,
    /// which run even when a dry run was asked for.
    CheckDryRun,
}

/// How consent for an invocation is obtained.
#[derive(Debug)]
pub enum PromptStrategy {
    /// Nothing is done about consent.
    NoPrompt,
    /// The flags are appended so that the tool skips its own question.
    NativeNoConfirm(Vec<String>),
    /// The tool asks its own question on the terminal.
    NativeConfirm,
    /// The engine asks this question itself before it spawns anything.
    CustomConfirm(String),
}

/// What a [`PromptStrategy`] stands for.
pub enum PromptView {
    NoPrompt,
    NativeNoConfirm(Seq<Seq<char>>),
    NativeConfirm,
    CustomConfirm(Seq<char>),
}

impl View for PromptStrategy {
    type V = PromptView;

    open spec fn view(&self) -> PromptView {
        match self {
            PromptStrategy::NoPrompt => PromptView::NoPrompt,
            PromptStrategy::NativeNoConfirm(flags) => PromptView::NativeNoConfirm(words(flags@)),
            PromptStrategy::NativeConfirm => PromptView::NativeConfirm,
            PromptStrategy::CustomConfirm(text) => PromptView::CustomConfirm(text@),
        }
    }
}

impl Clone for PromptStrategy {
    fn clone(&self) -> (out: PromptStrategy)
        ensures
            out@ == self@,
    {
        match self {
            PromptStrategy::NoPrompt => PromptStrategy::NoPrompt,
            PromptStrategy::NativeNoConfirm(flags) => PromptStrategy::NativeNoConfirm(
                clone_words(flags),
            ),
            PromptStrategy::NativeConfirm => PromptStrategy::NativeConfirm,
            PromptStrategy::CustomConfirm(text) => PromptStrategy::CustomConfirm(text.clone()),
        }
    }
}

impl PromptStrategy {
    /// The strategy that appends `flags` to silence the tool's own question.
    pub fn native_no_confirm(flags: &Vec<String>) -> (out: PromptStrategy)
        ensures
            out@ == PromptView::NativeNoConfirm(words(flags@)),
    {
        PromptStrategy::NativeNoConfirm(clone_words(flags))
    }

    /// The strategy in which the engine asks `text` itself.
    pub fn custom_confirm(text: &str) -> (out: PromptStrategy)
        ensures
            out@ == PromptView::CustomConfirm(text@),
    {
        PromptStrategy::CustomConfirm(word(text))
    }
}

/// Whether an invocation is wrapped to run with elevated privileges.
#[derive(Debug)]
pub enum Elevation {
    /// The command runs as it is.
    NotRequired,
    /// The elevation program is put in front of the command.
    Required,
    /// As `Required`, for a program that loses its environment under
    /// elevation: the given `NAME=value` words are handed back to it.
    RequiredWithEnv(Vec<String>),
}

/// What an [`Elevation`] stands for.
pub enum ElevationView {
    NotRequired,
    Required,
    RequiredWithEnv(Seq<Seq<char>>),
}

impl View for Elevation {
    type V = ElevationView;

    open spec fn view(&self) -> ElevationView {
        match self {
            Elevation::NotRequired => ElevationView::NotRequired,
            Elevation::Required => ElevationView::Required,
            Elevation::RequiredWithEnv(env) => ElevationView::RequiredWithEnv(words(env@)),
        }
    }
}

impl Clone for Elevation {
    fn clone(&self) -> (out: Elevation)
        ensures
            out@ == self@,
    {
        match self {
            Elevation::NotRequired => Elevation::NotRequired,
            Elevation::Required => Elevation::Required,
            Elevation::RequiredWithEnv(env) => Elevation::RequiredWithEnv(clone_words(env)),
        }
    }
}

/// The mediation policy of one invocation.
#[derive(Debug)]
pub struct Strategy {
    pub mode: ExecMode,
    pub prompt: PromptStrategy,
    pub elevation: Elevation,
}

/// What a [`Strategy`] stands for.
pub struct StrategyView {
    pub mode: ExecMode,
    pub prompt: PromptView,
    pub elevation: ElevationView,
}

impl View for Strategy {
    type V = StrategyView;

    open spec fn view(&self) -> StrategyView {
        StrategyView { mode: self.mode, prompt: self.prompt@, elevation: self.elevation@ }
    }
}

impl Clone for Strategy {
    fn clone(&self) -> (out: Strategy)
        ensures
            out@ == self@,
    {
        Strategy {
            mode: self.mode,
            prompt: self.prompt.clone(),
            elevation: self.elevation.clone(),
        }
    }
}

impl StrategyView {
    /// The plain strategy: run, no mediation of consent, no elevation.
    pub open spec fn plain() -> StrategyView {
        StrategyView {
            mode: ExecMode::Run,
            prompt: PromptView::NoPrompt,
            elevation: ElevationView::NotRequired,
        }
    }

    /// The strategy that the configuration alone dictates: a dry run if one
    /// was asked for, and the tool's own question unless consent was given
    /// in advance.
    pub open spec fn of_config(cfg: ConfigView) -> StrategyView {
        StrategyView {
            mode: if cfg.dry_run {
                ExecMode::DryRun
            } else {
                ExecMode::Run
            },
            prompt: if cfg.no_confirm {
                PromptView::NoPrompt
            } else {
                PromptView::NativeConfirm
            },
            elevation: ElevationView::NotRequired,
        }
    }

    /// The mode that holds for one call.  A dry run that the configuration
    /// asks for holds whatever the strategy and the override say, but for
    /// the override to a probe, which runs all the same.  Without such a dry
    /// run the override holds where there is one, else the strategy's own
    /// mode.
    pub open spec fn mode_in_effect(
        self,
        cfg: ConfigView,
        mode_override: Option<ExecMode>,
    ) -> ExecMode {
        if cfg.dry_run {
            if mode_override == Some(ExecMode::CheckDryRun) {
                ExecMode::CheckDryRun
            } else {
                ExecMode::DryRun
            }
        } else {
            match mode_override {
                Some(mode) => mode,
                None => self.mode,
            }
        }
    }

    /// This strategy with the mode that holds for one call.
    pub open spec fn in_effect(
        self,
        cfg: ConfigView,
        mode_override: Option<ExecMode>,
    ) -> StrategyView {
        StrategyView { mode: self.mode_in_effect(cfg, mode_override), ..self }
    }

    /// The command that stands at the end of mediation: first wrapped for
    /// elevation, then decorated with the flags that silence the tool.
    pub open spec fn resolved(
        self,
        inv: InvocationView,
        elevation_cmd: Seq<char>,
    ) -> InvocationView {
        let elevated = match self.elevation {
            ElevationView::NotRequired => inv,
            ElevationView::Required => inv.wrapped(elevation_cmd, Seq::empty()),
            ElevationView::RequiredWithEnv(env) => inv.wrapped(elevation_cmd, seq!["env"@] + env),
        };
        match self.prompt {
            PromptView::NativeNoConfirm(extra) => elevated.with_flags(extra),
            _ => elevated,
        }
    }

    /// The question that the engine asks before anything else happens, if
    /// it asks one: a probe asks none.
    pub open spec fn question(self) -> Option<Seq<char>> {
        match self.prompt {
            PromptView::CustomConfirm(text) => if self.mode == ExecMode::CheckDryRun {
                None
            } else {
                Some(text)
            },
            _ => None,
        }
    }

    /// Whether the spawned process gets the terminal, so that the tool can
    /// ask its own question there.
    pub open spec fn interactive(self) -> bool {
        self.prompt is NativeConfirm && self.mode != ExecMode::CheckDryRun
    }
}

impl Default for Strategy {
    fn default() -> (out: Strategy)
        ensures
            out@ == StrategyView::plain(),
    {
        Strategy {
            mode: ExecMode::Run,
            prompt: PromptStrategy::NoPrompt,
            elevation: Elevation::NotRequired,
        }
    }
}

impl Strategy {
    /// The strategy that the configuration alone dictates.
    pub fn from_config(cfg: &Config) -> (out: Strategy)
        ensures
            out@ == StrategyView::of_config(cfg@),
    {
        Strategy {
            mode: if cfg.dry_run {
                ExecMode::DryRun
            } else {
                ExecMode::Run
            },
            prompt: if cfg.no_confirm {
                PromptStrategy::NoPrompt
            } else {
                PromptStrategy::NativeConfirm
            },
            elevation: Elevation::NotRequired,
        }
    }

    /// This strategy with the mode that holds for one call.
    pub fn in_effect(&self, cfg: &Config, mode_override: Option<ExecMode>) -> (out: Strategy)
        ensures
            out@ == self@.in_effect(cfg@, mode_override),
    {
        let mode = if cfg.dry_run {
            match mode_override {
                Some(ExecMode::CheckDryRun) => ExecMode::CheckDryRun,
                _ => ExecMode::DryRun,
            }
        } else {
            match mode_override {
                Some(mode) => mode,
                None => self.mode,
            }
        };
        Strategy { mode, prompt: self.prompt.clone(), elevation: self.elevation.clone() }
    }

    /// Applies elevation and then the flags of the prompt strategy to a copy
    /// of `inv`; `inv` itself stays as it is.
    pub fn resolve(&self, inv: &Invocation, elevation_cmd: &str) -> (out: Invocation)
        ensures
            out@ == self@.resolved(inv@, elevation_cmd@),
    {
        let elevated = match &self.elevation {
            Elevation::NotRequired => inv.clone(),
            Elevation::Required => {
                let lead: Vec<String> = Vec::new();
                proof {
                    assert(words(lead@) =~= Seq::empty());
                }
                inv.clone().wrapped(elevation_cmd, &lead)
            },
            Elevation::RequiredWithEnv(env) => {
                let mut lead: Vec<String> = Vec::new();
                lead.push(word("env"));
                proof {
                    assert(words(lead@) =~= seq!["env"@]);
                }
                extend_words(&mut lead, env);
                inv.clone().wrapped(elevation_cmd, &lead)
            },
        };
        match &self.prompt {
            PromptStrategy::NativeNoConfirm(extra) => elevated.with_flags(extra),
            _ => elevated,
        }
    }
}

impl StrategyView {
    /// The words that elevation puts in front of a command.
    pub open spec fn lead(self, elevation_cmd: Seq<char>) -> Seq<Seq<char>> {
        match self.elevation {
            ElevationView::NotRequired => Seq::empty(),
            ElevationView::Required => seq![elevation_cmd],
            ElevationView::RequiredWithEnv(env) => seq![elevation_cmd, "env"@] + env,
        }
    }

    /// The flags that the prompt strategy puts behind a command.
    pub open spec fn extra_flags(self) -> Seq<Seq<char>> {
        match self.prompt {
            PromptView::NativeNoConfirm(extra) => extra,
            _ => Seq::empty(),
        }
    }
}

/// A strategy only adds words around a command: the resolved argument
/// vector is the elevation words, the argument vector as it was given, and
/// the flags of the prompt strategy, in this order.  The keywords stay as
/// they were, and the given flags come first among the flags.
pub proof fn lemma_resolved_wraps(
    strategy: StrategyView,
    inv: InvocationView,
    elevation_cmd: Seq<char>,
)
    ensures
        strategy.resolved(inv, elevation_cmd).argv() == strategy.lead(elevation_cmd) + inv.argv()
            + strategy.extra_flags(),
        strategy.resolved(inv, elevation_cmd).keywords == inv.keywords,
        strategy.resolved(inv, elevation_cmd).flags == inv.flags + strategy.extra_flags(),
{
    let out = strategy.resolved(inv, elevation_cmd);
    assert(out.flags =~= inv.flags + strategy.extra_flags());
    assert(out.argv() =~= strategy.lead(elevation_cmd) + inv.argv() + strategy.extra_flags());
}

/// The flags that silence the tool are appended exactly once, however
/// often the same operation is resolved: each resolution starts from the
/// invocation as it was given, which no resolution changes, so that every
/// one of them yields the given flags followed by one copy of the extra
/// flags.
pub proof fn lemma_no_confirm_flags_once(
    strategy: StrategyView,
    inv: InvocationView,
    elevation_cmd: Seq<char>,
    extra: Seq<Seq<char>>,
)
    requires
        strategy.prompt == PromptView::NativeNoConfirm(extra),
    ensures
        strategy.resolved(inv, elevation_cmd).flags == inv.flags + extra,
        strategy.resolved(inv, elevation_cmd).flags.len() == inv.flags.len() + extra.len(),
        strategy.resolved(inv, elevation_cmd).flags.subrange(0, inv.flags.len() as int)
            == inv.flags,
        strategy.resolved(inv, elevation_cmd).flags.subrange(
            inv.flags.len() as int,
            (inv.flags.len() + extra.len()) as int,
        ) == extra,
{
    lemma_resolved_wraps(strategy, inv, elevation_cmd);
    let flags = strategy.resolved(inv, elevation_cmd).flags;
    assert(flags.subrange(0, inv.flags.len() as int) =~= inv.flags);
    assert(flags.subrange(inv.flags.len() as int, (inv.flags.len() + extra.len()) as int)
        =~= extra);
}

/// Elevation and the flags of the prompt strategy do not get in each
/// other's way: whether the command is wrapped first and decorated then, or
/// the other way round, the result is the same, so that elevation always
/// wraps the fully decorated command.
pub proof fn lemma_elevation_wraps_decorated(
    inv: InvocationView,
    elevation_cmd: Seq<char>,
    lead: Seq<Seq<char>>,
    extra: Seq<Seq<char>>,
)
    ensures
        inv.wrapped(elevation_cmd, lead).with_flags(extra) == inv.with_flags(extra).wrapped(
            elevation_cmd,
            lead,
        ),
{
}

} // verus!
