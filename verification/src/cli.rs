//! The command line: choosing the command, reading each command's options,
//! validating what they hold, and the recipe listing.

use vstd::prelude::*;
use crate::edit::{grind_message, numeric_message, tab_message, valid_grind, NewRecipe, NewSample};
use crate::error::AppError;
use crate::number::{
    is_decimal_text, numeric_dose, numeric_plain, numeric_time, numeric_value, reject_tabs,
    require_grind_setting, require_number, require_number_with_message, strip_unit,
};
use crate::store::{clean_field, find_named, find_recipe, Data, RecipeView, SampleView};
use crate::text::{chars_of, concat, owned, push_str, str_eq, without_white_space};

verus! {

/// An error on the command line, and whether the usage text should be
/// shown with it.
#[derive(Debug)]
pub struct CliError {
    pub error: AppError,
    pub show_usage: bool,
}

/// Walks through the command-line arguments of a command.
pub struct ArgParser<'a> {
    pub args: &'a [String],
    pub index: usize,
}

/// The text starts with `--`.
pub open spec fn starts_with_dashes(s: Seq<char>) -> bool {
    s.len() >= 2 && s[0] == '-' && s[1] == '-'
}

/// An argument that can be an option's value: not empty and not starting
/// with `--`.
pub open spec fn usable_value(s: Seq<char>) -> bool {
    s.len() > 0 && !starts_with_dashes(s)
}

impl<'a> ArgParser<'a> {
    pub fn new(args: &'a [String]) -> (r: Self)
        ensures
            r.args == args,
            r.index == 0,
    {
        ArgParser { args, index: 0 }
    }

    /// The next argument, if any.
    pub fn next(&mut self) -> (r: Option<&'a str>)
        ensures
            final(self).args == old(self).args,
            old(self).index < old(self).args.len() ==> (r matches Some(a) && a@ == old(self).args@[old(
                self,
            ).index as int]@) && final(self).index == old(self).index + 1,
            old(self).index >= old(self).args.len() ==> r is None && final(self).index == old(self).index,
            final(self).index == (if old(self).index < old(self).args.len() {
                old(self).index + 1
            } else {
                old(self).index as int
            }),
            crate::json::str_option_view(r) == next_argument(arg_views(old(self).args@), old(self).index as nat),
    {
        if self.index < self.args.len() {
            let value = self.args[self.index].as_str();
            self.index = self.index + 1;
            Some(value)
        } else {
            None
        }
    }

    /// The value of `option`: the next argument, unless it is missing,
    /// empty, or starts with `--`.
    pub fn require_value(&mut self, option: &str) -> (r: Result<&'a str, AppError>)
        ensures
            final(self).args == old(self).args,
            ({
                let i = old(self).index as int;
                if i < old(self).args.len() && usable_value(old(self).args@[i]@) {
                    (r matches Ok(v) && v@ == old(self).args@[i]@) && final(self).index == i + 1
                } else {
                    (r matches Err(e) && e.0@ == "Missing value for "@ + option@) && final(self).index
                        == old(self).index
                }
            }),
    {
        if self.index >= self.args.len() {
            return Err(AppError::new(concat("Missing value for ", option)));
        }
        let value = self.args[self.index].as_str();
        let c = chars_of(value);
        if c.len() == 0 || (c.len() >= 2 && c[0] == '-' && c[1] == '-') {
            return Err(AppError::new(concat("Missing value for ", option)));
        }
        self.index = self.index + 1;
        Ok(value)
    }
}

/// The index of a parser after `calls` calls of `next`, started at the
/// first of `len` arguments: each call moves one argument on, until none
/// is left.
pub open spec fn index_after_calls(len: nat, calls: nat) -> nat
    decreases calls,
{
    if calls == 0 {
        0
    } else {
        let i = index_after_calls(len, (calls - 1) as nat);
        if i < len {
            i + 1
        } else {
            i
        }
    }
}

/// What a call of `next` at `index` hands out: the argument there, or
/// nothing past the end.
pub open spec fn next_argument(args: Seq<Seq<char>>, index: nat) -> Option<Seq<char>> {
    if index < args.len() {
        Some(args[index as int])
    } else {
        None
    }
}

/// Successive calls of `next` on a new parser hand out the arguments in
/// order, one per call, and nothing once they are all handed out: the call
/// after `k` others finds the parser at index `min(k, len)` and returns
/// argument `k`, or `None` when `k` is past the last argument.
pub proof fn law_next_walks_in_order(args: Seq<Seq<char>>, k: nat)
    ensures
        index_after_calls(args.len(), k) == (if k < args.len() {
            k
        } else {
            args.len()
        }),
        next_argument(args, index_after_calls(args.len(), k)) == (if k < args.len() {
            Some(args[k as int])
        } else {
            None::<Seq<char>>
        }),
    decreases k,
{
    if k > 0 {
        law_next_walks_in_order(args, (k - 1) as nat);
    }
}

/// An option a command accepts: its spelling, the slot it fills, and
/// whether it takes a value (otherwise it is a flag).
pub open spec fn rule_view(rule: (&str, usize, bool)) -> (Seq<char>, int, bool) {
    (rule.0@, rule.1 as int, rule.2)
}

pub open spec fn rule_views(rules: Seq<(&str, usize, bool)>) -> Seq<(Seq<char>, int, bool)> {
    rules.map_values(|r: (&str, usize, bool)| rule_view(r))
}

/// The first rule spelled `arg`.
pub open spec fn find_rule(rules: Seq<(Seq<char>, int, bool)>, arg: Seq<char>) -> Option<(Seq<char>, int, bool)>
    decreases rules.len(),
{
    if rules.len() == 0 {
        None
    } else if rules[0].0 == arg {
        Some(rules[0])
    } else {
        find_rule(rules.skip(1), arg)
    }
}

/// A rule found is one of the rules.
proof fn lemma_find_rule_in(rules: Seq<(Seq<char>, int, bool)>, arg: Seq<char>)
    ensures
        find_rule(rules, arg) matches Some(x) ==> rules.contains(x) && x.0 == arg,
    decreases rules.len(),
{
    if rules.len() > 0 && rules[0].0 != arg {
        lemma_find_rule_in(rules.skip(1), arg);
        if find_rule(rules, arg) is Some {
            let x = find_rule(rules, arg)->0;
            let k = choose|k: int| 0 <= k < rules.skip(1).len() && rules.skip(1)[k] == x;
            assert(rules[k + 1] == x);
        }
    } else if rules.len() > 0 {
        assert(rules[0] == rules[0]);
    }
}

/// How reading a command's options ends.
pub enum Scan {
    /// Help was asked for.
    Help,
    /// All arguments were read; each slot holds the value of the last
    /// option that filled it (a flag fills its slot with the empty text).
    Done(Seq<Option<Seq<char>>>),
    /// Reading failed with this message; the flag tells whether the usage
    /// text goes with it.
    Failed(Seq<char>, bool),
}

/// Reads the arguments from position `i` on, the slots filled so far being
/// `slots`.
pub open spec fn scan_options(
    args: Seq<Seq<char>>,
    i: int,
    rules: Seq<(Seq<char>, int, bool)>,
    command: Seq<char>,
    slots: Seq<Option<Seq<char>>>,
) -> Scan
    decreases args.len() - i,
{
    if i < 0 || i >= args.len() {
        Scan::Done(slots)
    } else {
        let a = args[i];
        if a == "-h"@ || a == "--help"@ {
            Scan::Help
        } else {
            match find_rule(rules, a) {
                None => Scan::Failed("Unknown option for "@ + command + ": "@ + a, true),
                Some(rule) => if rule.2 {
                    if i + 1 < args.len() && usable_value(args[i + 1]) {
                        scan_options(args, i + 2, rules, command, slots.update(rule.1, Some(args[i + 1])))
                    } else {
                        Scan::Failed("Missing value for "@ + a, false)
                    }
                } else {
                    scan_options(args, i + 1, rules, command, slots.update(rule.1, Some(Seq::empty())))
                },
            }
        }
    }
}

/// The views of command-line arguments.
pub open spec fn arg_views(args: Seq<String>) -> Seq<Seq<char>> {
    args.map_values(|a: String| a@)
}

/// The views of option slots.
pub open spec fn slot_views(slots: Seq<Option<String>>) -> Seq<Option<Seq<char>>> {
    slots.map_values(
        |s: Option<String>|
            match s {
                Some(v) => Some(v@),
                None => None,
            },
    )
}

fn find_rule_exec(rules: &[(&str, usize, bool)], arg: &str) -> (r: Option<(usize, bool)>)
    ensures
        r matches Some(p) ==> find_rule(rule_views(rules@), arg@) matches Some(x) && x.1 == p.0 as int && x.2
            == p.1,
        r is None ==> find_rule(rule_views(rules@), arg@) is None,
{
    let ghost all = rule_views(rules@);
    let mut i: usize = 0;
    proof {
        assert(all.skip(0) =~= all);
    }
    while i < rules.len()
        invariant
            i <= rules.len(),
            all == rule_views(rules@),
            find_rule(all, arg@) == find_rule(all.skip(i as int), arg@),
        decreases rules.len() - i,
    {
        let ghost rest = all.skip(i as int);
        assert(rest[0] == rule_view(rules@[i as int]));
        if str_eq(rules[i].0, arg) {
            return Some((rules[i].1, rules[i].2));
        }
        proof {
            assert(rest.skip(1) =~= all.skip(i as int + 1));
        }
        i = i + 1;
    }
    proof {
        assert(all.skip(i as int) =~= Seq::<(Seq<char>, int, bool)>::empty());
    }
    None
}

/// Reads a command's options. `Ok(None)` means help was asked for.
pub fn scan_args(args: &[String], rules: &[(&str, usize, bool)], slot_count: usize, command: &str) -> (r: Result<
    Option<Vec<Option<String>>>,
    CliError,
>)
    requires
        forall|k: int| 0 <= k < rules@.len() ==> (#[trigger] rules@[k]).1 < slot_count,
    ensures
        r matches Ok(Some(v)) ==> v.len() == slot_count,
        match scan_options(
            arg_views(args@),
            0,
            rule_views(rules@),
            command@,
            Seq::new(slot_count as nat, |k: int| None),
        ) {
            Scan::Help => r matches Ok(None),
            Scan::Done(slots) => r matches Ok(Some(v)) && slot_views(v@) == slots,
            Scan::Failed(message, usage) => r matches Err(e) && e.error.0@ == message && e.show_usage
                == usage,
        },
{
    let mut slots: Vec<Option<String>> = Vec::new();
    while slots.len() < slot_count
        invariant
            slots.len() <= slot_count,
            forall|k: int| 0 <= k < slots.len() ==> slots@[k] is None,
        decreases slot_count - slots.len(),
    {
        slots.push(None);
    }
    proof {
        assert(slot_views(slots@) =~= Seq::new(slot_count as nat, |k: int| None));
    }
    let ghost av = arg_views(args@);
    let ghost rv = rule_views(rules@);
    let ghost goal = scan_options(av, 0, rv, command@, slot_views(slots@));
    let mut parser = ArgParser::new(args);
    while parser.index < args.len()
        invariant
            parser.args == args,
            parser.index <= args.len(),
            av == arg_views(args@),
            rv == rule_views(rules@),
            slots.len() == slot_count,
            forall|k: int| 0 <= k < rules@.len() ==> (#[trigger] rules@[k]).1 < slot_count,
            goal == scan_options(av, parser.index as int, rv, command@, slot_views(slots@)),
            goal == scan_options(
                arg_views(args@),
                0,
                rule_views(rules@),
                command@,
                Seq::new(slot_count as nat, |k: int| None),
            ),
        decreases args.len() - parser.index,
    {
        let ghost i = parser.index as int;
        let arg = parser.next().unwrap();
        proof {
            assert(av[i] == arg@);
        }
        if str_eq(arg, "-h") || str_eq(arg, "--help") {
            return Ok(None);
        }
        match find_rule_exec(rules, arg) {
            None => {
                let message = concat(concat(concat("Unknown option for ", command).as_str(), ": ").as_str(), arg);
                return Err(CliError { error: AppError::new(message), show_usage: true });
            },
            Some((slot, takes_value)) => {
                proof {
                    let x = find_rule(rv, arg@)->0;
                    lemma_find_rule_in(rv, arg@);
                    let k = choose|k: int| 0 <= k < rv.len() && rv[k] == x;
                    assert(rv[k] == rule_view(rules@[k]));
                    assert(rules@[k].1 < slot_count);
                }
                if takes_value {
                    match parser.require_value(arg) {
                        Ok(value) => {
                            let v = owned(value);
                            let ghost before = slots@;
                            proof {
                                assert(av[i + 1] == value@);
                            }
                            slots.set(slot, Some(v));
                            proof {
                                assert(slot_views(slots@) =~= slot_views(before).update(slot as int, Some(value@)));
                            }
                        },
                        Err(e) => {
                            return Err(CliError { error: e, show_usage: false });
                        },
                    }
                } else {
                    let ghost before = slots@;
                    let empty = String::new();
                    slots.set(slot, Some(empty));
                    proof {
                        assert(slot_views(slots@) =~= slot_views(before).update(slot as int, Some(Seq::empty())));
                    }
                }
            },
        }
    }
    Ok(Some(slots))
}

fn usage_error(message: &str) -> (r: CliError)
    ensures
        r.error.0@ == message@,
        r.show_usage,
{
    CliError { error: AppError::new(owned(message)), show_usage: true }
}

/// A check's failure as a command-line error shown without usage text.
fn plain(r: Result<(), AppError>) -> (out: Result<(), CliError>)
    ensures
        r is Ok ==> out is Ok,
        r matches Err(e) ==> out matches Err(c) && c.error == e && !c.show_usage,
{
    match r {
        Ok(()) => Ok(()),
        Err(e) => Err(plain_error(e)),
    }
}

fn plain_error(error: AppError) -> (r: CliError)
    ensures
        r.error == error,
        !r.show_usage,
{
    CliError { error, show_usage: false }
}

/// The slot values, as optional views.
fn slot_value(slots: &Vec<Option<String>>, k: usize) -> (r: Option<&String>)
    requires
        k < slots.len(),
    ensures
        match slot_views(slots@)[k as int] {
            Some(v) => r matches Some(s) && s@ == v,
            None => r is None,
        },
{
    match &slots[k] {
        Some(v) => Some(v),
        None => None,
    }
}

/// The options of `add`.
pub open spec fn add_rules() -> Seq<(Seq<char>, int, bool)> {
    seq![
        ("--recipe"@, 0int, true),
        ("--name"@, 0int, true),
        ("--dose"@, 1int, true),
        ("--shot-weight"@, 2int, true),
        ("--yield"@, 2int, true),
    ]
}

/// What `add` asks for: `Ok(None)` for help, else the recipe's name, dose
/// and shot weight; or the error with its usage flag.
pub open spec fn add_request(args: Seq<Seq<char>>) -> Result<
    Option<(Seq<char>, Seq<char>, Seq<char>)>,
    (Seq<char>, bool),
> {
    match scan_options(args, 0, add_rules(), "add"@, seq![None, None, None]) {
        Scan::Help => Ok(None),
        Scan::Failed(m, u) => Err((m, u)),
        Scan::Done(slots) => match (slots[0], slots[1], slots[2]) {
            (Some(name), Some(d), Some(w)) => {
                let dose = strip_unit(d, seq!['g', 'g']);
                let shot = strip_unit(w, seq!['g', 'g']);
                if !clean_field(name) {
                    Err((tab_message("recipe"@), false))
                } else if !clean_field(dose) {
                    Err((tab_message("dose"@), false))
                } else if !clean_field(shot) {
                    Err((tab_message("shot weight"@), false))
                } else if !is_decimal_text(dose) {
                    Err((numeric_message("dose"@), false))
                } else if !is_decimal_text(shot) {
                    Err((numeric_message("shot weight"@), false))
                } else {
                    Ok(Some((name, dose, shot)))
                }
            },
            _ => Err(("Add requires --recipe, --dose, and --shot-weight"@, true)),
        },
    }
}

/// Reads the arguments of `add`.
pub fn add_recipe_args(args: &[String]) -> (r: Result<Option<NewRecipe>, CliError>)
    ensures
        match add_request(arg_views(args@)) {
            Ok(None) => r matches Ok(None),
            Ok(Some((name, dose, shot))) => r matches Ok(Some(n)) && n.name@ == name && n.dose_weight_g@ == dose
                && n.shot_weight_g@ == shot,
            Err((message, usage)) => r matches Err(e) && e.error.0@ == message && e.show_usage == usage,
        },
{
    let rules = vec![("--recipe", 0usize, true), ("--name", 0, true), ("--dose", 1, true), ("--shot-weight", 2, true), ("--yield", 2, true)];
    proof {
        assert(rule_views(rules@) =~= add_rules());
        assert(Seq::new(3, |k: int| None::<Seq<char>>) =~= seq![None, None, None]);
    }
    let slots = match scan_args(args, rules.as_slice(), 3, "add")? {
        None => return Ok(None),
        Some(v) => v,
    };
    let (name, dose, shot) = match (slot_value(&slots, 0), slot_value(&slots, 1), slot_value(&slots, 2)) {
        (Some(n), Some(d), Some(w)) => (owned(n.as_str()), numeric_dose(d.as_str()), numeric_dose(w.as_str())),
        _ => return Err(usage_error("Add requires --recipe, --dose, and --shot-weight")),
    };
    plain(reject_tabs("recipe", name.as_str()))?;
    plain(reject_tabs("dose", dose.as_str()))?;
    plain(reject_tabs("shot weight", shot.as_str()))?;
    plain(require_number("dose", dose.as_str()))?;
    plain(require_number("shot weight", shot.as_str()))?;
    Ok(Some(NewRecipe { name, dose_weight_g: dose, shot_weight_g: shot }))
}

/// The options of `sample`.
pub open spec fn sample_rules() -> Seq<(Seq<char>, int, bool)> {
    seq![
        ("--recipe"@, 0int, true),
        ("--name"@, 0int, true),
        ("--grind"@, 1int, true),
        ("--time"@, 2int, true),
        ("--choked"@, 3int, false),
    ]
}

/// What `sample` asks for: `Ok(None)` for help, else the recipe name, shot
/// time and grind; or the error with its usage flag. A choked shot records
/// time `0` and takes no `--time`.
pub open spec fn sample_request(args: Seq<Seq<char>>) -> Result<
    Option<(Seq<char>, Seq<char>, Seq<char>)>,
    (Seq<char>, bool),
> {
    let missing = "Sample requires --recipe, --grind, and --time"@;
    match scan_options(args, 0, sample_rules(), "sample"@, seq![None, None, None, None]) {
        Scan::Help => Ok(None),
        Scan::Failed(m, u) => Err((m, u)),
        Scan::Done(slots) => {
            let choked = slots[3] is Some;
            match (slots[0], slots[1]) {
                (Some(name), Some(g)) => {
                    let grind = without_white_space(g);
                    if choked && slots[2] is Some {
                        Err(("Choked samples record time as 0s and do not accept --time"@, true))
                    } else if !choked && slots[2] is None {
                        Err((missing, true))
                    } else {
                        let time = if choked {
                            "0"@
                        } else {
                            strip_unit(slots[2]->0, seq!['s', 's'])
                        };
                        if !clean_field(name) {
                            Err((tab_message("recipe"@), false))
                        } else if !clean_field(grind) {
                            Err((tab_message("grind"@), false))
                        } else if !clean_field(time) {
                            Err((tab_message("shot time"@), false))
                        } else if !valid_grind(grind) {
                            Err((grind_message(grind), false))
                        } else if !is_decimal_text(time) {
                            Err((numeric_message("shot time"@), false))
                        } else {
                            Ok(Some((name, time, grind)))
                        }
                    }
                },
                _ => Err((missing, true)),
            }
        },
    }
}

/// Reads the arguments of `sample`.
pub fn add_sample_args(args: &[String]) -> (r: Result<Option<NewSample>, CliError>)
    ensures
        match sample_request(arg_views(args@)) {
            Ok(None) => r matches Ok(None),
            Ok(Some((name, time, grind))) => r matches Ok(Some(n)) && n.recipe@ == name && n.time@ == time
                && n.grind@ == grind,
            Err((message, usage)) => r matches Err(e) && e.error.0@ == message && e.show_usage == usage,
        },
{
    let rules = vec![("--recipe", 0usize, true), ("--name", 0, true), ("--grind", 1, true), ("--time", 2, true), ("--choked", 3, false)];
    proof {
        assert(rule_views(rules@) =~= sample_rules());
        assert(Seq::new(4, |k: int| None::<Seq<char>>) =~= seq![None, None, None, None]);
    }
    let slots = match scan_args(args, rules.as_slice(), 4, "sample")? {
        None => return Ok(None),
        Some(v) => v,
    };
    let choked = slot_value(&slots, 3).is_some();
    let (name, grind) = match (slot_value(&slots, 0), slot_value(&slots, 1)) {
        (Some(n), Some(g)) => (owned(n.as_str()), numeric_plain(g.as_str())),
        _ => return Err(usage_error("Sample requires --recipe, --grind, and --time")),
    };
    let time = match slot_value(&slots, 2) {
        Some(t) => {
            if choked {
                return Err(usage_error("Choked samples record time as 0s and do not accept --time"));
            }
            numeric_time(t.as_str())
        },
        None => {
            if !choked {
                return Err(usage_error("Sample requires --recipe, --grind, and --time"));
            }
            owned("0")
        },
    };
    plain(reject_tabs("recipe", name.as_str()))?;
    plain(reject_tabs("grind", grind.as_str()))?;
    plain(reject_tabs("shot time", time.as_str()))?;
    plain(require_grind_setting(grind.as_str()))?;
    plain(require_number("shot time", time.as_str()))?;
    Ok(Some(NewSample { recipe: name, time, grind }))
}

/// The options of `predict` (and of `graph`, which also takes
/// `--output`/`-o`).
pub open spec fn target_rules(with_output: bool) -> Seq<(Seq<char>, int, bool)> {
    let base = seq![("--recipe"@, 0int, true), ("--name"@, 0int, true), ("--time"@, 1int, true)];
    if with_output {
        base + seq![("--output"@, 2int, true), ("-o"@, 2int, true)]
    } else {
        base
    }
}

/// A request for a recipe at a target shot time.
#[derive(Debug)]
pub struct TargetRequest {
    /// The recipe's name.
    pub recipe: String,
    /// The target time as a number, its unit removed.
    pub target: String,
    /// Where to write the graph, when given.
    pub output: Option<String>,
}

/// What `predict` or `graph` asks for: `Ok(None)` for help, else the
/// recipe name, the target time as a number, and the output path if given;
/// or the error with its usage flag.
pub open spec fn target_request(args: Seq<Seq<char>>, command: Seq<char>, missing: Seq<char>, with_output: bool) -> Result<
    Option<(Seq<char>, Seq<char>, Option<Seq<char>>)>,
    (Seq<char>, bool),
> {
    match scan_options(args, 0, target_rules(with_output), command, seq![None, None, None]) {
        Scan::Help => Ok(None),
        Scan::Failed(m, u) => Err((m, u)),
        Scan::Done(slots) => match (slots[0], slots[1]) {
            (Some(name), Some(time)) => {
                let target = strip_unit(time, seq!['g', 's']);
                if !clean_field(name) {
                    Err((tab_message("recipe"@), false))
                } else if !clean_field(time) {
                    Err((tab_message("target time"@), false))
                } else if !is_decimal_text(target) {
                    Err(("Target time must be numeric, optionally ending in s"@, false))
                } else {
                    Ok(Some((name, target, slots[2])))
                }
            },
            _ => Err((missing, true)),
        },
    }
}

fn target_args(args: &[String], command: &str, missing: &str, with_output: bool) -> (r: Result<Option<TargetRequest>, CliError>)
    ensures
        match target_request(arg_views(args@), command@, missing@, with_output) {
            Ok(None) => r matches Ok(None),
            Ok(Some((name, target, output))) => r matches Ok(Some(t)) && t.recipe@ == name && t.target@ == target
                && (match output {
                Some(o) => t.output matches Some(x) && x@ == o,
                None => t.output is None,
            }),
            Err((message, usage)) => r matches Err(e) && e.error.0@ == message && e.show_usage == usage,
        },
{
    let mut rules = vec![("--recipe", 0usize, true), ("--name", 0, true), ("--time", 1, true)];
    if with_output {
        rules.push(("--output", 2, true));
        rules.push(("-o", 2, true));
    }
    proof {
        assert(rule_views(rules@) =~= target_rules(with_output));
        assert(Seq::new(3, |k: int| None::<Seq<char>>) =~= seq![None, None, None]);
    }
    let slots = match scan_args(args, rules.as_slice(), 3, command)? {
        None => return Ok(None),
        Some(v) => v,
    };
    let (name, time) = match (slot_value(&slots, 0), slot_value(&slots, 1)) {
        (Some(n), Some(t)) => (owned(n.as_str()), owned(t.as_str())),
        _ => return Err(usage_error(missing)),
    };
    let output = match slot_value(&slots, 2) {
        Some(o) => Some(owned(o.as_str())),
        None => None,
    };
    plain(reject_tabs("recipe", name.as_str()))?;
    plain(reject_tabs("target time", time.as_str()))?;
    let target = numeric_value(time.as_str());
    plain(require_number_with_message(target.as_str(), "Target time must be numeric, optionally ending in s"))?;
    Ok(Some(TargetRequest { recipe: name, target, output }))
}

/// Reads the arguments of `predict`.
pub fn predict_args(args: &[String]) -> (r: Result<Option<TargetRequest>, CliError>)
    ensures
        match target_request(arg_views(args@), "predict"@, "Predict requires --recipe and --time"@, false) {
            Ok(None) => r matches Ok(None),
            Ok(Some((name, target, output))) => r matches Ok(Some(t)) && t.recipe@ == name && t.target@ == target
                && t.output is None,
            Err((message, usage)) => r matches Err(e) && e.error.0@ == message && e.show_usage == usage,
        },
{
    proof {
        lemma_no_output_slot(arg_views(args@), "predict"@);
    }
    target_args(args, "predict", "Predict requires --recipe and --time", false)
}

/// Reads the arguments of `graph`.
pub fn graph_args(args: &[String]) -> (r: Result<Option<TargetRequest>, CliError>)
    ensures
        match target_request(arg_views(args@), "graph"@, "Graph requires --recipe and --time"@, true) {
            Ok(None) => r matches Ok(None),
            Ok(Some((name, target, output))) => r matches Ok(Some(t)) && t.recipe@ == name && t.target@ == target
                && (match output {
                Some(o) => t.output matches Some(x) && x@ == o,
                None => t.output is None,
            }),
            Err((message, usage)) => r matches Err(e) && e.error.0@ == message && e.show_usage == usage,
        },
{
    target_args(args, "graph", "Graph requires --recipe and --time", true)
}

/// With no rule for slot 2, reading never fills it.
proof fn lemma_scan_keeps_slot(
    args: Seq<Seq<char>>,
    i: int,
    rules: Seq<(Seq<char>, int, bool)>,
    command: Seq<char>,
    slots: Seq<Option<Seq<char>>>,
    k: int,
)
    requires
        forall|j: int| 0 <= j < rules.len() ==> (#[trigger] rules[j]).1 != k,
        forall|j: int| 0 <= j < rules.len() ==> 0 <= (#[trigger] rules[j]).1 < slots.len(),
        0 <= k < slots.len(),
    ensures
        scan_options(args, i, rules, command, slots) matches Scan::Done(out) ==> out.len() == slots.len()
            && out[k] == slots[k],
    decreases args.len() - i,
{
    if 0 <= i < args.len() {
        let a = args[i];
        lemma_find_rule_in(rules, a);
        match find_rule(rules, a) {
            Some(rule) => {
                let m = choose|m: int| 0 <= m < rules.len() && rules[m] == rule;
                assert(rules[m].1 != k);
                assert(0 <= rules[m].1 < slots.len());
                if rule.2 {
                    if i + 1 < args.len() && usable_value(args[i + 1]) {
                        lemma_scan_keeps_slot(args, i + 2, rules, command, slots.update(rule.1, Some(args[i + 1])), k);
                    }
                } else {
                    lemma_scan_keeps_slot(args, i + 1, rules, command, slots.update(rule.1, Some(Seq::empty())), k);
                }
            },
            None => {},
        }
    }
}

proof fn lemma_no_output_slot(args: Seq<Seq<char>>, command: Seq<char>)
    ensures
        scan_options(args, 0, target_rules(false), command, seq![None, None, None]) matches Scan::Done(out)
            ==> out.len() == 3 && out[2] is None,
{
    let rules = target_rules(false);
    assert forall|j: int| 0 <= j < rules.len() implies (#[trigger] rules[j]).1 != 2 by {}
    assert forall|j: int| 0 <= j < rules.len() implies 0 <= (#[trigger] rules[j]).1 < 3 by {}
    lemma_scan_keeps_slot(args, 0, rules, command, seq![None, None, None], 2);
}

/// The options of `serve`.
pub open spec fn serve_rules() -> Seq<(Seq<char>, int, bool)> {
    seq![("--host"@, 0int, true), ("--port"@, 1int, true)]
}

/// What `serve` asks for: `Ok(None)` for help, else the host and port
/// (by default `0.0.0.0` and `9000`); or the error with its usage flag.
pub open spec fn serve_request(args: Seq<Seq<char>>) -> Result<Option<(Seq<char>, Seq<char>)>, (Seq<char>, bool)> {
    match scan_options(args, 0, serve_rules(), "serve"@, seq![None, None]) {
        Scan::Help => Ok(None),
        Scan::Failed(m, u) => Err((m, u)),
        Scan::Done(slots) => {
            let host = match slots[0] {
                Some(h) => h,
                None => "0.0.0.0"@,
            };
            let port = match slots[1] {
                Some(p) => p,
                None => "9000"@,
            };
            if !is_decimal_text(port) {
                Err((numeric_message("port"@), false))
            } else {
                Ok(Some((host, port)))
            }
        },
    }
}

/// Reads the arguments of `serve`: the address to listen on, as
/// `host:port`.
pub fn serve_args(args: &[String]) -> (r: Result<Option<String>, CliError>)
    ensures
        match serve_request(arg_views(args@)) {
            Ok(None) => r matches Ok(None),
            Ok(Some((host, port))) => r matches Ok(Some(a)) && a@ == host + seq![':'] + port,
            Err((message, usage)) => r matches Err(e) && e.error.0@ == message && e.show_usage == usage,
        },
{
    let rules = vec![("--host", 0usize, true), ("--port", 1, true)];
    proof {
        assert(rule_views(rules@) =~= serve_rules());
        assert(Seq::new(2, |k: int| None::<Seq<char>>) =~= seq![None, None]);
    }
    let slots = match scan_args(args, rules.as_slice(), 2, "serve")? {
        None => return Ok(None),
        Some(v) => v,
    };
    let host = match slot_value(&slots, 0) {
        Some(h) => owned(h.as_str()),
        None => owned("0.0.0.0"),
    };
    let port = match slot_value(&slots, 1) {
        Some(p) => owned(p.as_str()),
        None => owned("9000"),
    };
    plain(require_number("port", port.as_str()))?;
    proof {
        reveal_strlit(":");
    }
    Ok(Some(concat(concat(host.as_str(), ":").as_str(), port.as_str())))
}

/// The options of `remove`.
pub open spec fn remove_rules() -> Seq<(Seq<char>, int, bool)> {
    seq![("--recipe"@, 0int, true), ("--name"@, 0int, true)]
}

/// What `remove` asks for: `Ok(None)` for help, else the recipe name; or
/// the error with its usage flag.
pub open spec fn remove_request(args: Seq<Seq<char>>) -> Result<Option<Seq<char>>, (Seq<char>, bool)> {
    match scan_options(args, 0, remove_rules(), "remove"@, seq![None]) {
        Scan::Help => Ok(None),
        Scan::Failed(m, u) => Err((m, u)),
        Scan::Done(slots) => match slots[0] {
            Some(name) => Ok(Some(name)),
            None => Err(("Remove requires --recipe"@, true)),
        },
    }
}

/// Reads the arguments of `remove`.
pub fn remove_args(args: &[String]) -> (r: Result<Option<String>, CliError>)
    ensures
        match remove_request(arg_views(args@)) {
            Ok(None) => r matches Ok(None),
            Ok(Some(name)) => r matches Ok(Some(n)) && n@ == name,
            Err((message, usage)) => r matches Err(e) && e.error.0@ == message && e.show_usage == usage,
        },
{
    let rules = vec![("--recipe", 0usize, true), ("--name", 0, true)];
    proof {
        assert(rule_views(rules@) =~= remove_rules());
        assert(Seq::new(1, |k: int| None::<Seq<char>>) =~= seq![None]);
    }
    let slots = match scan_args(args, rules.as_slice(), 1, "remove")? {
        None => return Ok(None),
        Some(v) => v,
    };
    match slot_value(&slots, 0) {
        Some(n) => Ok(Some(owned(n.as_str()))),
        None => Err(usage_error("Remove requires --recipe")),
    }
}

/// The commands of the program.
#[derive(Clone, Copy, Debug, PartialEq, Eq, Structural)]
pub enum Command {
    List,
    Add,
    Sample,
    Predict,
    Graph,
    Serve,
    Remove,
    Help,
}

/// The command a word names.
pub open spec fn command_named(word: Seq<char>) -> Option<Command> {
    if word == "recipes"@ || word == "list"@ {
        Some(Command::List)
    } else if word == "add"@ {
        Some(Command::Add)
    } else if word == "sample"@ || word == "add-sample"@ {
        Some(Command::Sample)
    } else if word == "predict"@ {
        Some(Command::Predict)
    } else if word == "graph"@ {
        Some(Command::Graph)
    } else if word == "serve"@ || word == "web"@ {
        Some(Command::Serve)
    } else if word == "remove"@ || word == "rm"@ {
        Some(Command::Remove)
    } else if word == "-h"@ || word == "--help"@ || word == "help"@ {
        Some(Command::Help)
    } else {
        None
    }
}

/// Each command has its own words, and no word chooses two commands:
/// `recipes` or `list` lists, `add` adds a recipe, `sample` or `add-sample`
/// records a shot, `predict` predicts, `graph` draws, `serve` or `web`
/// serves, `remove` or `rm` removes, `-h`, `--help` or `help` shows help;
/// any other word names no command.
pub proof fn law_each_command_has_its_words(word: Seq<char>)
    ensures
        command_named(word) == Some(Command::List) <==> word == "recipes"@ || word == "list"@,
        command_named(word) == Some(Command::Add) <==> word == "add"@,
        command_named(word) == Some(Command::Sample) <==> word == "sample"@ || word == "add-sample"@,
        command_named(word) == Some(Command::Predict) <==> word == "predict"@,
        command_named(word) == Some(Command::Graph) <==> word == "graph"@,
        command_named(word) == Some(Command::Serve) <==> word == "serve"@ || word == "web"@,
        command_named(word) == Some(Command::Remove) <==> word == "remove"@ || word == "rm"@,
        command_named(word) == Some(Command::Help) <==> word == "-h"@ || word == "--help"@ || word == "help"@,
{
    reveal_strlit("recipes");
    reveal_strlit("list");
    reveal_strlit("add");
    reveal_strlit("sample");
    reveal_strlit("add-sample");
    reveal_strlit("predict");
    reveal_strlit("graph");
    reveal_strlit("serve");
    reveal_strlit("web");
    reveal_strlit("remove");
    reveal_strlit("rm");
    reveal_strlit("-h");
    reveal_strlit("--help");
    reveal_strlit("help");
    assert("recipes"@.len() == 7 && "recipes"@[0] == 'r');
    assert("list"@.len() == 4 && "list"@[0] == 'l');
    assert("add"@.len() == 3 && "add"@[0] == 'a');
    assert("sample"@.len() == 6 && "sample"@[0] == 's');
    assert("add-sample"@.len() == 10 && "add-sample"@[0] == 'a');
    assert("predict"@.len() == 7 && "predict"@[0] == 'p');
    assert("graph"@.len() == 5 && "graph"@[0] == 'g');
    assert("serve"@.len() == 5 && "serve"@[0] == 's');
    assert("web"@.len() == 3 && "web"@[0] == 'w');
    assert("remove"@.len() == 6 && "remove"@[0] == 'r');
    assert("rm"@.len() == 2 && "rm"@[0] == 'r');
    assert("-h"@.len() == 2 && "-h"@[0] == '-');
    assert("--help"@.len() == 6 && "--help"@[0] == '-');
    assert("help"@.len() == 4 && "help"@[0] == 'h');
    assert("list"@[0] != "help"@[0]);
    assert("add"@[0] != "web"@[0]);
    assert("sample"@[0] != "remove"@[0]);
    assert("sample"@[0] != "--help"@[0]);
    assert("remove"@[0] != "--help"@[0]);
    assert("graph"@[0] != "serve"@[0]);
    assert("rm"@[0] != "-h"@[0]);
}

/// The command word: the first argument, or `recipes` when there is none.
pub open spec fn command_word(args: Seq<Seq<char>>) -> Seq<char> {
    if args.len() == 0 {
        "recipes"@
    } else {
        args[0]
    }
}

/// Chooses the command from the program's arguments; the remaining
/// arguments are the command's own.
pub fn parse_command(args: &[String]) -> (r: Result<Command, CliError>)
    ensures
        match command_named(command_word(arg_views(args@))) {
            Some(c) => r == Ok::<Command, CliError>(c),
            None => r matches Err(e) && e.error.0@ == "Unknown command: "@ + command_word(arg_views(args@))
                && e.show_usage,
        },
{
    let word: &str = if args.len() == 0 {
        "recipes"
    } else {
        args[0].as_str()
    };
    proof {
        if args.len() > 0 {
            assert(arg_views(args@)[0] == args@[0]@);
        }
    }
    if str_eq(word, "recipes") || str_eq(word, "list") {
        Ok(Command::List)
    } else if str_eq(word, "add") {
        Ok(Command::Add)
    } else if str_eq(word, "sample") || str_eq(word, "add-sample") {
        Ok(Command::Sample)
    } else if str_eq(word, "predict") {
        Ok(Command::Predict)
    } else if str_eq(word, "graph") {
        Ok(Command::Graph)
    } else if str_eq(word, "serve") || str_eq(word, "web") {
        Ok(Command::Serve)
    } else if str_eq(word, "remove") || str_eq(word, "rm") {
        Ok(Command::Remove)
    } else if str_eq(word, "-h") || str_eq(word, "--help") || str_eq(word, "help") {
        Ok(Command::Help)
    } else {
        Err(CliError { error: AppError::new(concat("Unknown command: ", word)), show_usage: true })
    }
}

/// The index of the first recipe called `name`; fails when there is none.
pub fn require_recipe(data: &Data, name: &str) -> (r: Result<usize, AppError>)
    ensures
        find_named(data@, name@) is Some ==> (r matches Ok(j) && find_named(data@, name@) == Some(j as int) && j
            < data@.len()),
        find_named(data@, name@) is None ==> (r matches Err(e) && e.0@ == "Recipe not found: "@ + name@),
{
    match find_recipe(data, name) {
        Some(i) => Ok(i),
        None => Err(AppError::new(concat("Recipe not found: ", name))),
    }
}

/// The index of the first recipe called `name`, which must have samples.
pub fn require_recipe_with_samples(data: &Data, name: &str) -> (r: Result<usize, AppError>)
    ensures
        find_named(data@, name@) is None ==> (r matches Err(e) && e.0@ == "Recipe not found: "@ + name@),
        find_named(data@, name@) matches Some(i) ==> 0 <= i < data@.len() && if data@[i].samples.len() > 0 {
            r == Ok::<usize, AppError>(i as usize)
        } else {
            r matches Err(e) && e.0@ == "No samples found for recipe: "@ + name@
        },
{
    proof {
        crate::store::lemma_find_named(data@, name@);
    }
    let i = require_recipe(data, name)?;
    if data.recipes[i].samples.len() == 0 {
        return Err(AppError::new(concat("No samples found for recipe: ", name)));
    }
    Ok(i)
}

/// The lines listing one sample.
pub open spec fn sample_listing(s: SampleView) -> Seq<char> {
    "  - time: "@ + s.time + seq!['\n'] + "    grind: "@ + s.grind + seq!['\n']
}

pub open spec fn samples_listing(ss: Seq<SampleView>) -> Seq<char>
    decreases ss.len(),
{
    if ss.len() == 0 {
        Seq::empty()
    } else {
        samples_listing(ss.drop_last()) + sample_listing(ss.last())
    }
}

/// The lines listing one recipe with its samples, ended by `---`.
pub open spec fn recipe_listing(r: RecipeView) -> Seq<char> {
    "recipe: "@ + r.name + seq!['\n'] + "dose_weight_g: "@ + r.dose_weight_g + seq!['\n'] + "shot_weight_g: "@
        + r.shot_weight_g + seq!['\n'] + (if r.samples.len() > 0 {
        "samples:\n"@ + samples_listing(r.samples)
    } else {
        Seq::empty()
    }) + "---\n"@
}

pub open spec fn recipes_listing(rs: Seq<RecipeView>) -> Seq<char>
    decreases rs.len(),
{
    if rs.len() == 0 {
        Seq::empty()
    } else {
        recipes_listing(rs.drop_last()) + recipe_listing(rs.last())
    }
}

/// What `recipes` prints.
pub open spec fn listing_text(rs: Seq<RecipeView>) -> Seq<char> {
    if rs.len() == 0 {
        "No coffee recipes found.\n"@
    } else {
        recipes_listing(rs)
    }
}

fn push_recipe_listing(out: &mut String, r: &crate::store::Recipe)
    ensures
        final(out)@ == old(out)@ + recipe_listing(r@),
{
    push_str(out, "recipe: ");
    push_str(out, r.name.as_str());
    crate::text::push_char(out, '\n');
    push_str(out, "dose_weight_g: ");
    push_str(out, r.dose_weight_g.as_str());
    crate::text::push_char(out, '\n');
    push_str(out, "shot_weight_g: ");
    push_str(out, r.shot_weight_g.as_str());
    crate::text::push_char(out, '\n');
    if r.samples.len() > 0 {
        push_str(out, "samples:\n");
        let ghost head = out@;
        let ghost ss = r@.samples;
        let mut k: usize = 0;
        proof {
            assert(samples_listing(ss.take(0)) =~= Seq::<char>::empty());
            assert(out@ =~= head + samples_listing(ss.take(0)));
        }
        while k < r.samples.len()
            invariant
                k <= r.samples.len(),
                ss == r@.samples,
                out@ == head + samples_listing(ss.take(k as int)),
            decreases r.samples.len() - k,
        {
            let s = &r.samples[k];
            push_str(out, "  - time: ");
            push_str(out, s.time.as_str());
            crate::text::push_char(out, '\n');
            push_str(out, "    grind: ");
            push_str(out, s.grind.as_str());
            crate::text::push_char(out, '\n');
            proof {
                let t = ss.take(k as int + 1);
                assert(t.drop_last() =~= ss.take(k as int));
                assert(t.last() == s@);
                assert(out@ =~= head + samples_listing(t));
            }
            k = k + 1;
        }
        proof {
            assert(ss.take(r.samples.len() as int) =~= ss);
        }
    }
    push_str(out, "---\n");
    proof {
        assert(final(out)@ =~= old(out)@ + recipe_listing(r@));
    }
}

/// The text `recipes` prints: each recipe with its samples, or a note that
/// there are none.
pub fn recipes_listing_text(data: &Data) -> (r: String)
    ensures
        r@ == listing_text(data@),
{
    if data.recipes.len() == 0 {
        return owned("No coffee recipes found.\n");
    }
    let mut out = String::new();
    let mut i: usize = 0;
    proof {
        assert(recipes_listing(data@.take(0)) =~= Seq::<char>::empty());
    }
    while i < data.recipes.len()
        invariant
            i <= data.recipes.len(),
            out@ == recipes_listing(data@.take(i as int)),
        decreases data.recipes.len() - i,
    {
        push_recipe_listing(&mut out, &data.recipes[i]);
        proof {
            let t = data@.take(i as int + 1);
            assert(t.drop_last() =~= data@.take(i as int));
            assert(t.last() == data@[i as int]);
        }
        i = i + 1;
    }
    proof {
        assert(data@.take(data.recipes.len() as int) =~= data@);
    }
    out
}

} // verus!
