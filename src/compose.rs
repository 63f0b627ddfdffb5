//! Turning an ordered list of logger profiles into an ordered list of sinks.

use vstd::prelude::*;
use crate::level::LogLevel;

verus! {

/// Timestamp pattern that every sink prefixes to its lines.
pub const TIME_FORMAT: &'static str = "[%d.%m.%Y %H:%M:%S]";

/// A terminal sink: its minimum severity.
#[derive(Clone, Debug)]
pub struct TermLogConfig {
    pub log_level: LogLevel,
}

/// A file sink: its minimum severity and the file it appends to.
#[derive(Clone, Debug)]
pub struct WriteLogConfig {
    pub log_level: LogLevel,
    pub path: String,
}

/// One profile: a terminal sink, a file sink, both or neither.
#[derive(Clone, Debug)]
pub struct LogConfig {
    pub term_logger: Option<TermLogConfig>,
    pub write_logger: Option<WriteLogConfig>,
}

/// What a planned sink is, with its path as a sequence of characters.
pub enum SinkModel {
    Terminal { level: log::LevelFilter, mode: simplelog::TerminalMode, color: simplelog::ColorChoice },
    File { level: log::LevelFilter, path: Seq<char> },
}

/// A sink to be built: terminal or file, with the filter it will apply;
/// a terminal sink also with its stream mode and colour policy.
#[derive(Debug)]
pub enum SinkPlan {
    Terminal { level: log::LevelFilter, mode: simplelog::TerminalMode, color: simplelog::ColorChoice },
    File { level: log::LevelFilter, path: String },
}

impl View for SinkPlan {
    type V = SinkModel;

    open spec fn view(&self) -> SinkModel {
        match self {
            SinkPlan::Terminal { level, mode, color } => SinkModel::Terminal {
                level: *level,
                mode: *mode,
                color: *color,
            },
            SinkPlan::File { level, path } => SinkModel::File { level: *level, path: path@ },
        }
    }
}

/// The sinks one profile contributes: its terminal sink first, then its file
/// sink. A terminal sink sends errors to standard error and the rest to
/// standard output, with colours where the terminal supports them.
pub open spec fn profile_sinks(c: LogConfig) -> Seq<SinkModel> {
    let term = match c.term_logger {
        Some(t) => seq![
            SinkModel::Terminal {
                level: t.log_level.filter(),
                mode: simplelog::TerminalMode::Mixed,
                color: simplelog::ColorChoice::Auto,
            },
        ],
        None => Seq::empty(),
    };
    let file = match c.write_logger {
        Some(w) => seq![SinkModel::File { level: w.log_level.filter(), path: w.path@ }],
        None => Seq::empty(),
    };
    term + file
}

/// The sinks of a list of profiles, profile by profile, in order.
pub open spec fn planned(cs: Seq<LogConfig>) -> Seq<SinkModel>
    decreases cs.len(),
{
    if cs.len() == 0 {
        Seq::empty()
    } else {
        planned(cs.drop_last()) + profile_sinks(cs.last())
    }
}

/// Planning two lists of profiles one after the other gives the sinks of
/// the first list followed by those of the second: sinks are registered in
/// profile order, and no profile's sinks are lost or repeated.
pub proof fn lemma_planned_concat(a: Seq<LogConfig>, b: Seq<LogConfig>)
    ensures
        planned(a + b) == planned(a) + planned(b),
    decreases b.len(),
{
    if b.len() == 0 {
        assert(a + b =~= a);
        assert(planned(b) =~= Seq::<SinkModel>::empty());
        assert(planned(a) + planned(b) =~= planned(a));
    } else {
        lemma_planned_concat(a, b.drop_last());
        assert((a + b).drop_last() =~= a + b.drop_last());
        assert((a + b).last() == b.last());
        assert(planned(a) + planned(b) =~= planned(a) + planned(b.drop_last()) + profile_sinks(b.last()));
    }
}

/// The abstract view of a list of sink plans.
pub open spec fn plans_view(ps: Seq<SinkPlan>) -> Seq<SinkModel> {
    ps.map_values(|p: SinkPlan| p@)
}

/// Builds the flat, ordered list of sinks that the profiles ask for.
pub fn plan_sinks(config: &Vec<LogConfig>) -> (r: Vec<SinkPlan>)
    ensures
        plans_view(r@) == planned(config@),
{
    let mut r: Vec<SinkPlan> = Vec::new();
    let mut i: usize = 0;
    while i < config.len()
        invariant
            i <= config.len(),
            plans_view(r@) == planned(config@.take(i as int)),
        decreases config.len() - i,
    {
        let c = &config[i];
        let ghost before = r@;
        match &c.term_logger {
            Some(t) => {
                r.push(
                    SinkPlan::Terminal {
                        level: t.log_level.to_level_filter(),
                        mode: simplelog::TerminalMode::Mixed,
                        color: simplelog::ColorChoice::Auto,
                    },
                );
            },
            None => {},
        }
        match &c.write_logger {
            Some(w) => {
                r.push(SinkPlan::File { level: w.log_level.to_level_filter(), path: w.path.clone() });
            },
            None => {},
        }
        proof {
            let cs = config@.take(i as int + 1);
            assert(cs.drop_last() =~= config@.take(i as int));
            assert(cs.last() == config@[i as int]);
            assert(plans_view(r@) =~= plans_view(before) + profile_sinks(config@[i as int]));
        }
        i = i + 1;
    }
    assert(config@.take(config.len() as int) =~= config@);
    r
}

} // verus!
