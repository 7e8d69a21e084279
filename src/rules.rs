use vstd::prelude::*;
use crate::log::LogLevel;

verus! {

/// One entry of the sort table: files hit by `pattern` go to one of
/// `destinations`; with more than one, the operator picks.
pub struct SortRule {
    pub pattern: String,
    pub destinations: Vec<String>,
}

/// The options given on the command line.
pub struct CliArgs {
    pub directory: Option<String>,
    pub keep: Option<Vec<String>>,
    pub remove: Option<Vec<String>>,
    pub dont_sort: bool,
    pub dont_remove: bool,
    pub remove_unknown: bool,
    pub log_level: Option<LogLevel>,
}

/// The persisted configuration.
pub struct ConfigOpts {
    pub sorting_locations: Vec<SortRule>,
    pub keep: Vec<String>,
    pub remove: Vec<String>,
    pub safe_mode: bool,
}

/// The effective rule set and flags of one run.
pub struct CommandOpts {
    pub dir: String,
    pub keep_extensions: Vec<String>,
    pub del_extensions: Vec<String>,
    pub keep_prefixes: Vec<String>,
    pub del_prefixes: Vec<String>,
    pub safe_mode: bool,
    pub remove_unknown: bool,
    pub no_del: bool,
    pub no_sort: bool,
    pub sort_table: Vec<SortRule>,
}

/// Every entry of a sort table names at least one destination.
pub open spec fn table_wf(table: Seq<SortRule>) -> bool {
    forall|i: int| 0 <= i < table.len() ==> (#[trigger] table[i]).destinations@.len() >= 1
}

impl CommandOpts {
    pub open spec fn wf(&self) -> bool {
        table_wf(self.sort_table@)
    }
}

impl ConfigOpts {
    pub open spec fn wf(&self) -> bool {
        table_wf(self.sorting_locations@)
    }
}

/// Whether every entry of a sort table names at least one destination.
pub fn table_is_wf(table: &Vec<SortRule>) -> (r: bool)
    ensures
        r == table_wf(table@),
{
    let mut i: usize = 0;
    while i < table.len()
        invariant
            i <= table@.len(),
            forall|j: int| 0 <= j < i ==> (#[trigger] table@[j]).destinations@.len() >= 1,
        decreases table@.len() - i,
    {
        if table[i].destinations.len() == 0 {
            return false;
        }
        i += 1;
    }
    true
}

/// A pattern that starts with `.` names an extension; any other names a prefix.
pub open spec fn is_extension_pattern(s: String) -> bool {
    s@.len() > 0 && s@[0] == '.'
}

pub open spec fn is_prefix_pattern(s: String) -> bool {
    !is_extension_pattern(s)
}

/// The patterns of an optional list, none where it is absent.
pub open spec fn listed(v: Option<Vec<String>>) -> Seq<String> {
    match v {
        Some(v) => v@,
        None => Seq::empty(),
    }
}

/// Whether a pattern names an extension.
pub fn names_extension(s: &String) -> (r: bool)
    ensures
        r == is_extension_pattern(*s),
{
    let t = s.as_str();
    t.unicode_len() > 0 && t.get_char(0) == '.'
}

/// Appends the patterns of `src` to `ext` or to `pre`, by whether they name
/// an extension, in their order.
fn partition_into(src: Vec<String>, ext: &mut Vec<String>, pre: &mut Vec<String>)
    ensures
        final(ext)@ == old(ext)@ + src@.filter(|s: String| is_extension_pattern(s)),
        final(pre)@ == old(pre)@ + src@.filter(|s: String| is_prefix_pattern(s)),
{
    let ghost e0 = ext@;
    let ghost p0 = pre@;
    let mut i: usize = 0;
    while i < src.len()
        invariant
            i <= src@.len(),
            ext@ == e0 + src@.take(i as int).filter(|s: String| is_extension_pattern(s)),
            pre@ == p0 + src@.take(i as int).filter(|s: String| is_prefix_pattern(s)),
        decreases src@.len() - i,
    {
        let item = src[i].clone();
        proof {
            assert(src@.take(i + 1) =~= src@.take(i as int).push(src@[i as int]));
            src@.take(i as int).lemma_filter_push(
                src@[i as int],
                |s: String| is_extension_pattern(s),
            );
            src@.take(i as int).lemma_filter_push(src@[i as int], |s: String| is_prefix_pattern(s));
        }
        if names_extension(&item) {
            ext.push(item);
        } else {
            pre.push(item);
        }
        assert(ext@ =~= e0 + src@.take(i + 1).filter(|s: String| is_extension_pattern(s)));
        assert(pre@ =~= p0 + src@.take(i + 1).filter(|s: String| is_prefix_pattern(s)));
        i += 1;
    }
    assert(src@.take(src@.len() as int) =~= src@);
}

/// Builds the rule set of a run from the command line and the configuration.
/// Keep patterns are those of the command line, then those of the
/// configuration; delete patterns are those of the configuration, then those of
/// the command line; each list is split into extension and prefix patterns by
/// a leading `.`. The directory is the one given, else `default_dir`.
pub fn fill_command_opts(args: CliArgs, cfg: ConfigOpts, default_dir: String) -> (cmd: CommandOpts)
    requires
        cfg.wf(),
    ensures
        cmd.wf(),
        cmd.dir == (match args.directory {
            Some(d) => d,
            None => default_dir,
        }),
        cmd.keep_extensions@ == (listed(args.keep) + cfg.keep@).filter(
            |s: String| is_extension_pattern(s),
        ),
        cmd.keep_prefixes@ == (listed(args.keep) + cfg.keep@).filter(
            |s: String| is_prefix_pattern(s),
        ),
        cmd.del_extensions@ == (cfg.remove@ + listed(args.remove)).filter(
            |s: String| is_extension_pattern(s),
        ),
        cmd.del_prefixes@ == (cfg.remove@ + listed(args.remove)).filter(
            |s: String| is_prefix_pattern(s),
        ),
        cmd.safe_mode == cfg.safe_mode,
        cmd.remove_unknown == args.remove_unknown,
        cmd.no_del == args.dont_remove,
        cmd.no_sort == args.dont_sort,
        cmd.sort_table@ == cfg.sorting_locations@,
{
    let dir = match args.directory {
        Some(d) => d,
        None => default_dir,
    };
    let cli_keep = match args.keep {
        Some(v) => v,
        None => Vec::new(),
    };
    let cli_remove = match args.remove {
        Some(v) => v,
        None => Vec::new(),
    };
    let ghost ck = cli_keep@;
    let ghost cr = cli_remove@;
    let ghost fk = cfg.keep@;
    let ghost fr = cfg.remove@;
    let mut keep_extensions: Vec<String> = Vec::new();
    let mut keep_prefixes: Vec<String> = Vec::new();
    let mut del_extensions: Vec<String> = Vec::new();
    let mut del_prefixes: Vec<String> = Vec::new();
    partition_into(cli_keep, &mut keep_extensions, &mut keep_prefixes);
    partition_into(cfg.keep, &mut keep_extensions, &mut keep_prefixes);
    partition_into(cfg.remove, &mut del_extensions, &mut del_prefixes);
    partition_into(cli_remove, &mut del_extensions, &mut del_prefixes);
    proof {
        Seq::filter_distributes_over_add(ck, fk, |s: String| is_extension_pattern(s));
        Seq::filter_distributes_over_add(ck, fk, |s: String| is_prefix_pattern(s));
        Seq::filter_distributes_over_add(fr, cr, |s: String| is_extension_pattern(s));
        Seq::filter_distributes_over_add(fr, cr, |s: String| is_prefix_pattern(s));
        assert(keep_extensions@ =~= (ck + fk).filter(|s: String| is_extension_pattern(s)));
        assert(keep_prefixes@ =~= (ck + fk).filter(|s: String| is_prefix_pattern(s)));
        assert(del_extensions@ =~= (fr + cr).filter(|s: String| is_extension_pattern(s)));
        assert(del_prefixes@ =~= (fr + cr).filter(|s: String| is_prefix_pattern(s)));
    }
    CommandOpts {
        dir,
        keep_extensions,
        del_extensions,
        keep_prefixes,
        del_prefixes,
        safe_mode: cfg.safe_mode,
        remove_unknown: args.remove_unknown,
        no_del: args.dont_remove,
        no_sort: args.dont_sort,
        sort_table: cfg.sorting_locations,
    }
}

} // verus!
