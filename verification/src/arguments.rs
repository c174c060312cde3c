//! The command line: what the tool reads of it, and what of it goes on to `cargo build`.
use crate::text::{same_text, texts};
use vstd::prelude::*;

verus! {

/// The options that the tool itself reads. Every other option of `cargo build` is accepted on the
/// command line and only passed on.
#[derive(Debug)]
pub struct Opt {
    /// The name of the configuration to use.
    pub config: Option<String>,
    /// List the known chips instead of building anything.
    pub list_chips: bool,
    /// Flash without progress bars.
    pub disable_progressbars: bool,
    /// The binary to build and flash.
    pub bin: Option<String>,
    /// The example to build and flash.
    pub example: Option<String>,
    /// Build with the release profile.
    pub release: bool,
    /// The target triple to build for.
    pub target: Option<String>,
}

/// The options that `cargo build` does not understand.
pub const ARGUMENTS_TO_REMOVE: [&'static str; 2] = ["list-chips", "disable-progressbars"];

/// The arguments without the name that stands before the subcommand `embed`, where Cargo has put
/// that subcommand behind it.
pub open spec fn without_launcher(args: Seq<Seq<char>>) -> Seq<Seq<char>> {
    if args.len() > 1 && args[1] == "embed"@ {
        args.drop_first()
    } else {
        args
    }
}

/// Drops the launcher's name when the tool was called as `cargo embed`, so that exactly one name
/// stands before the options either way.
pub fn drop_launcher(args: Vec<String>) -> (rest: Vec<String>)
    ensures
        texts(rest@) == without_launcher(texts(args@)),
{
    let mut args = args;
    if args.len() > 1 && same_text(args[1].as_str(), "embed") {
        let ghost before = texts(args@);
        assert(before[1] == args@[1]@);
        let _ = args.remove(0);
        assert(texts(args@) =~= before.drop_first());
        args
    } else {
        args
    }
}

/// The name of the configuration that the options ask for.
pub open spec fn chosen_config(opt: Opt) -> Seq<char> {
    match opt.config {
        Some(name) => name@,
        None => "default"@,
    }
}

/// The name of the configuration that the options ask for.
pub fn config_name(opt: &Opt) -> (name: &str)
    ensures
        name@ == chosen_config(*opt),
{
    match &opt.config {
        Some(name) => name.as_str(),
        None => "default",
    }
}

/// The texts of a sequence of option names.
pub open spec fn name_texts(names: Seq<&str>) -> Seq<Seq<char>> {
    names.map_values(|n: &str| n@)
}

/// Whether `arg` is the long option of one of the given names.
pub open spec fn is_option_of(names: Seq<Seq<char>>, arg: Seq<char>) -> bool {
    exists|i: int| 0 <= i < names.len() && arg == "--"@ + #[trigger] names[i]
}

/// The arguments that are no long option of one of the given names, in their order.
pub open spec fn without_options(names: Seq<Seq<char>>, args: Seq<Seq<char>>) -> Seq<Seq<char>> {
    args.filter(|arg: Seq<char>| !is_option_of(names, arg))
}

fn is_option(names: &[&str], arg: &str) -> (found: bool)
    ensures
        found == is_option_of(name_texts(names@), arg@),
{
    let mut i: usize = 0;
    while i < names.len()
        invariant
            i <= names.len(),
            forall|j: int| 0 <= j < i ==> arg@ != "--"@ + #[trigger] name_texts(names@)[j],
        decreases names.len() - i,
    {
        let option = "--".to_owned().concat(names[i]);
        assert(option@ == "--"@ + name_texts(names@)[i as int]);
        if same_text(arg, option.as_str()) {
            return true;
        }
        i += 1;
    }
    false
}

/// Takes every long option of the given names out of the arguments.
pub fn remove_arguments(names: &[&str], args: &Vec<String>) -> (kept: Vec<String>)
    ensures
        texts(kept@) == without_options(name_texts(names@), texts(args@)),
{
    let mut kept: Vec<String> = Vec::new();
    let mut i: usize = 0;
    let ghost all = texts(args@);
    let ghost wanted = |arg: Seq<char>| !is_option_of(name_texts(names@), arg);
    proof {
        reveal(Seq::filter);
        assert(all.take(0) =~= Seq::empty());
        assert(texts(kept@) =~= all.take(0).filter(wanted));
    }
    while i < args.len()
        invariant
            i <= args.len(),
            all == texts(args@),
            wanted == (|arg: Seq<char>| !is_option_of(name_texts(names@), arg)),
            texts(kept@) == all.take(i as int).filter(wanted),
        decreases args.len() - i,
    {
        let ghost known = texts(kept@);
        proof {
            all.take(i as int).lemma_filter_push(all[i as int], wanted);
            assert(all.take(i + 1) =~= all.take(i as int).push(all[i as int]));
        }
        if !is_option(names, args[i].as_str()) {
            kept.push(args[i].clone());
            assert(texts(kept@) =~= known.push(all[i as int]));
        }
        i += 1;
    }
    assert(all.take(i as int) =~= all);
    kept
}

/// What `cargo build` is given of the arguments: all but the tool's name, its own options, and the
/// first argument that reads like the name of the configuration.
pub open spec fn build_arguments_of(args: Seq<Seq<char>>, config: Seq<char>) -> Seq<Seq<char>> {
    without_options(name_texts(ARGUMENTS_TO_REMOVE@), args.drop_first()).remove_value(config)
}

/// What `cargo build` is given of the arguments, in which the tool's name stands first.
pub fn build_arguments(args: &Vec<String>, config_name: &str) -> (build: Vec<String>)
    requires
        args.len() > 0,
    ensures
        texts(build@) == build_arguments_of(texts(args@), config_name@),
{
    let mut rest = args.clone();
    let _ = rest.remove(0);
    assert(texts(rest@) =~= texts(args@).drop_first());
    let mut build = remove_arguments(&ARGUMENTS_TO_REMOVE, &rest);
    let ghost kept = texts(build@);
    let mut i: usize = 0;
    while i < build.len()
        invariant
            i <= build.len(),
            kept == texts(build@),
            kept == without_options(name_texts(ARGUMENTS_TO_REMOVE@), texts(args@).drop_first()),
            forall|j: int| 0 <= j < i ==> kept[j] != config_name@,
        decreases build.len() - i,
    {
        if same_text(build[i].as_str(), config_name) {
            proof {
                assert(kept[i as int] == config_name@);
                kept.index_of_first_ensures(config_name@);
                assert(kept.index_of_first(config_name@) == Some(i as int));
            }
            let _ = build.remove(i);
            assert(texts(build@) =~= kept.remove(i as int));
            return build;
        }
        i += 1;
    }
    proof {
        kept.index_of_first_ensures(config_name@);
        assert(!kept.contains(config_name@));
    }
    build
}

/// `cargo embed ..` and `cargo-embed ..` are one command: what follows the name or names is read
/// alike, and `cargo build` is given the same.
pub proof fn law_launcher_makes_no_difference(
    launcher: Seq<char>,
    tool: Seq<char>,
    rest: Seq<Seq<char>>,
    config: Seq<char>,
)
    requires
        rest.len() > 0 ==> rest[0] != "embed"@,
    ensures
        ({
            let by_cargo = without_launcher(seq![launcher, "embed"@] + rest);
            let direct = without_launcher(seq![tool] + rest);
            &&& by_cargo.drop_first() == direct.drop_first()
            &&& by_cargo.len() == direct.len()
            &&& build_arguments_of(by_cargo, config) == build_arguments_of(direct, config)
        }),
{
    let by_cargo = without_launcher(seq![launcher, "embed"@] + rest);
    let direct = without_launcher(seq![tool] + rest);
    assert((seq![launcher, "embed"@] + rest)[1] == "embed"@);
    if rest.len() > 0 {
        assert((seq![tool] + rest)[1] == rest[0]);
    }
    assert(by_cargo.drop_first() =~= rest);
    assert(direct.drop_first() =~= rest);
}

/// None of the tool's own options ever reaches `cargo build`.
pub proof fn law_own_options_are_not_passed_on(
    args: Seq<Seq<char>>,
    config: Seq<char>,
    arg: Seq<char>,
)
    requires
        build_arguments_of(args, config).contains(arg),
    ensures
        arg != "--list-chips"@,
        arg != "--disable-progressbars"@,
{
    let names = name_texts(ARGUMENTS_TO_REMOVE@);
    let kept = without_options(names, args.drop_first());
    let wanted = |a: Seq<char>| !is_option_of(names, a);
    kept.index_of_first_ensures(config);
    let build = build_arguments_of(args, config);
    let i = choose|i: int| 0 <= i < build.len() && build[i] == arg;
    let j = match kept.index_of_first(config) {
        Some(at) => if i < at {
            i
        } else {
            i + 1
        },
        None => i,
    };
    assert(kept[j] == arg);
    args.drop_first().lemma_filter_pred(wanted, j);
    assert(wanted(arg));
    lemma_own_options(arg);
}

proof fn lemma_own_options(arg: Seq<char>)
    ensures
        is_option_of(name_texts(ARGUMENTS_TO_REMOVE@), arg) <==> arg == "--list-chips"@ || arg
            == "--disable-progressbars"@,
{
    let names = name_texts(ARGUMENTS_TO_REMOVE@);
    reveal_strlit("--");
    reveal_strlit("list-chips");
    reveal_strlit("disable-progressbars");
    reveal_strlit("--list-chips");
    reveal_strlit("--disable-progressbars");
    assert(names.len() == 2);
    assert(names[0] == "list-chips"@);
    assert(names[1] == "disable-progressbars"@);
    assert("--list-chips"@ =~= "--"@ + names[0]);
    assert("--disable-progressbars"@ =~= "--"@ + names[1]);
}

/// An argument that is neither one of the tool's own options nor reads like the configuration's
/// name.
pub open spec fn is_ordinary(config: Seq<char>, arg: Seq<char>) -> bool {
    arg != config && arg != "--list-chips"@ && arg != "--disable-progressbars"@
}

proof fn lemma_filter_of_filter(
    s: Seq<Seq<char>>,
    weaker: spec_fn(Seq<char>) -> bool,
    stronger: spec_fn(Seq<char>) -> bool,
)
    requires
        forall|a: Seq<char>| #[trigger] stronger(a) ==> weaker(a),
    ensures
        s.filter(weaker).filter(stronger) == s.filter(stronger),
    decreases s.len(),
{
    reveal(Seq::filter);
    if s.len() > 0 {
        let rest = s.drop_last();
        lemma_filter_of_filter(rest, weaker, stronger);
        rest.filter(weaker).lemma_filter_push(s.last(), stronger);
    }
}

/// All ordinary arguments reach `cargo build`, as often as they were given and in the same order.
pub proof fn law_ordinary_arguments_are_passed_on(args: Seq<Seq<char>>, config: Seq<char>)
    ensures
        build_arguments_of(args, config).filter(|a: Seq<char>| is_ordinary(config, a))
            == args.drop_first().filter(|a: Seq<char>| is_ordinary(config, a)),
{
    let names = name_texts(ARGUMENTS_TO_REMOVE@);
    let wanted = |a: Seq<char>| !is_option_of(names, a);
    let ordinary = |a: Seq<char>| is_ordinary(config, a);
    let rest = args.drop_first();
    let kept = without_options(names, rest);
    assert forall|a: Seq<char>| #[trigger] ordinary(a) implies wanted(a) by {
        lemma_own_options(a);
    }
    lemma_filter_of_filter(rest, wanted, ordinary);
    kept.index_of_first_ensures(config);
    match kept.index_of_first(config) {
        Some(at) => {
            let before = kept.subrange(0, at);
            let after = kept.subrange(at + 1, kept.len() as int);
            assert(kept =~= before.push(config) + after);
            Seq::filter_distributes_over_add(before.push(config), after, ordinary);
            Seq::filter_distributes_over_add(before, after, ordinary);
            before.lemma_filter_push(config, ordinary);
        },
        None => {},
    }
}

proof fn lemma_filter_takes_from(s: Seq<Seq<char>>, pred: spec_fn(Seq<char>) -> bool, x: Seq<char>)
    requires
        s.filter(pred).contains(x),
    ensures
        s.contains(x),
        pred(x),
    decreases s.len(),
{
    let i = choose|i: int| 0 <= i < s.filter(pred).len() && s.filter(pred)[i] == x;
    s.lemma_filter_pred(pred, i);
    reveal(Seq::filter);
    if s.len() > 0 {
        if s.last() == x {
            assert(s[s.len() - 1] == x);
        } else {
            assert(s.drop_last().filter(pred)[i] == x);
            assert(s.drop_last().filter(pred).contains(x));
            lemma_filter_takes_from(s.drop_last(), pred, x);
            let k = choose|k: int| 0 <= k < s.drop_last().len() && s.drop_last()[k] == x;
            assert(s[k] == x);
        }
    }
}

/// Taking options out goes argument by argument: what is left of two lists in a row is what is left
/// of each.
pub proof fn law_options_are_removed_one_by_one(
    names: Seq<Seq<char>>,
    a: Seq<Seq<char>>,
    b: Seq<Seq<char>>,
)
    ensures
        without_options(names, a + b) == without_options(names, a) + without_options(names, b),
        without_options(names, Seq::empty()) == Seq::<Seq<char>>::empty(),
{
    let wanted = |arg: Seq<char>| !is_option_of(names, arg);
    Seq::filter_distributes_over_add(a, b, wanted);
    reveal(Seq::filter);
}

/// An argument stays unless it is two dashes and one of the names.
pub proof fn law_options_are_removed_by_name(names: Seq<Seq<char>>, arg: Seq<char>)
    ensures
        (exists|i: int| 0 <= i < names.len() && arg == "--"@ + #[trigger] names[i])
            ==> without_options(names, seq![arg]) == Seq::<Seq<char>>::empty(),
        (forall|i: int| 0 <= i < names.len() ==> arg != "--"@ + #[trigger] names[i])
            ==> without_options(names, seq![arg]) == seq![arg],
{
    let wanted = |a: Seq<char>| !is_option_of(names, a);
    Seq::<Seq<char>>::empty().lemma_filter_push(arg, wanted);
    reveal(Seq::filter);
    assert(seq![arg] =~= Seq::<Seq<char>>::empty().push(arg));
    assert(Seq::<Seq<char>>::empty().filter(wanted) =~= Seq::empty());
    assert(Seq::<Seq<char>>::empty().push(arg) =~= seq![arg]);
}

/// Where the configuration's name is not among the arguments, `cargo build` is given all of them
/// but the tool's name and its own options, in the same order.
pub proof fn law_build_without_config_name(
    tool: Seq<char>,
    rest: Seq<Seq<char>>,
    config: Seq<char>,
)
    requires
        !rest.contains(config),
    ensures
        build_arguments_of(seq![tool] + rest, config) == rest.filter(
            |a: Seq<char>| a != "--list-chips"@ && a != "--disable-progressbars"@,
        ),
{
    let names = name_texts(ARGUMENTS_TO_REMOVE@);
    let wanted = |a: Seq<char>| !is_option_of(names, a);
    let passed = |a: Seq<char>| a != "--list-chips"@ && a != "--disable-progressbars"@;
    assert forall|a: Seq<char>| #[trigger] wanted(a) == passed(a) by {
        lemma_own_options(a);
    }
    assert(wanted =~= passed);
    assert((seq![tool] + rest).drop_first() =~= rest);
    let kept = rest.filter(wanted);
    kept.index_of_first_ensures(config);
    if kept.contains(config) {
        lemma_filter_takes_from(rest, wanted, config);
    }
}

/// The first argument that reads like the configuration's name is not passed on, wherever it
/// stands; what stands before and behind it is, but for the tool's own options.
pub proof fn law_build_drops_the_config_name(
    tool: Seq<char>,
    before: Seq<Seq<char>>,
    config: Seq<char>,
    after: Seq<Seq<char>>,
)
    requires
        !before.contains(config),
    ensures
        build_arguments_of(seq![tool] + before + seq![config] + after, config) == (before
            + after).filter(|a: Seq<char>| a != "--list-chips"@ && a != "--disable-progressbars"@),
{
    let names = name_texts(ARGUMENTS_TO_REMOVE@);
    let wanted = |a: Seq<char>| !is_option_of(names, a);
    let passed = |a: Seq<char>| a != "--list-chips"@ && a != "--disable-progressbars"@;
    assert forall|a: Seq<char>| #[trigger] wanted(a) == passed(a) by {
        lemma_own_options(a);
    }
    assert(wanted =~= passed);
    let rest = before.push(config) + after;
    assert((seq![tool] + before + seq![config] + after).drop_first() =~= rest);
    let kept = rest.filter(wanted);
    let head = before.filter(wanted);
    let tail = after.filter(wanted);
    Seq::filter_distributes_over_add(before.push(config), after, wanted);
    Seq::filter_distributes_over_add(before, after, wanted);
    before.lemma_filter_push(config, wanted);
    kept.index_of_first_ensures(config);
    if head.contains(config) {
        lemma_filter_takes_from(before, wanted, config);
    }
    if wanted(config) {
        assert(kept =~= head.push(config) + tail);
        assert(kept[head.len() as int] == config);
        let at = kept.index_of_first(config)->0;
        if at < head.len() {
            assert(head[at] == config);
        }
        assert(at == head.len());
        assert(kept.remove(at) =~= head + tail);
    } else {
        assert(kept =~= head + tail);
        if kept.contains(config) {
            lemma_filter_takes_from(rest, wanted, config);
        }
    }
}

/// If the configuration's name is among the arguments behind the tool's name, it reaches
/// `cargo build` once less than it was given.
pub proof fn law_config_name_is_passed_on_once_less(args: Seq<Seq<char>>, config: Seq<char>)
    requires
        args.len() > 0,
        args.drop_first().contains(config),
        config != "--list-chips"@,
        config != "--disable-progressbars"@,
    ensures
        build_arguments_of(args, config).filter(|a: Seq<char>| a == config).len()
            == args.drop_first().filter(|a: Seq<char>| a == config).len() - 1,
{
    let rest = args.drop_first();
    let same = |a: Seq<char>| a == config;
    let passed = |a: Seq<char>| a != "--list-chips"@ && a != "--disable-progressbars"@;
    rest.index_of_first_ensures(config);
    let at = rest.index_of_first(config)->0;
    let before = rest.take(at);
    let after = rest.skip(at + 1);
    assert(args =~= seq![args[0]] + before + seq![config] + after);
    law_build_drops_the_config_name(args[0], before, config, after);
    lemma_filter_of_filter(before + after, passed, same);
    assert(rest =~= before.push(config) + after);
    Seq::filter_distributes_over_add(before.push(config), after, same);
    Seq::filter_distributes_over_add(before, after, same);
    before.lemma_filter_push(config, same);
}

/// All arguments stay as they are, but for the first one where `embed` is the second.
pub proof fn law_only_the_launcher_is_dropped(args: Seq<Seq<char>>)
    ensures
        args.len() > 1 && args[1] == "embed"@ ==> seq![args[0]] + without_launcher(args) == args,
        args.len() <= 1 || args[1] != "embed"@ ==> without_launcher(args) == args,
{
    if args.len() > 1 {
        assert(seq![args[0]] + args.drop_first() =~= args);
    }
}

/// A configuration that is named is the one to use, and `default` is used only where none is.
pub proof fn law_named_config_is_used(opt: Opt, name: String)
    ensures
        opt.config == Some(name) ==> chosen_config(opt) == name@,
        opt.config is None ==> chosen_config(opt) == "default"@,
{
}

} // verus!
