//! The package set differ: which packages to install, which to remove, and
//! how a command template and a package list materialize into a runnable
//! command.
//!
//! Everything here is pure. Running the materialized commands, and obtaining
//! the listings the differ consumes, is the callers' business.

use vstd::prelude::*;
use crate::errors::Error;
use crate::errors::ErrorV;
use crate::text::join_spaces_spec;
use crate::text::join_with_spaces;
use crate::text::replace_placeholder;
use crate::text::replace_placeholder_spec;
use crate::text::split_words;
use crate::text::split_words_spec;

verus! {

/// The names of `keep`, in their original order, with every name that occurs
/// in `exclude` left out.
pub open spec fn seq_diff(keep: Seq<Seq<char>>, exclude: Seq<Seq<char>>) -> Seq<Seq<char>> {
    keep.filter(|p: Seq<char>| !exclude.contains(p))
}

/// Does `v` hold a string whose characters equal those of `s`?
fn contains_string(v: &Vec<String>, s: &String) -> (r: bool)
    ensures
        r == v.deep_view().contains(s@),
{
    let mut i: usize = 0;
    while i < v.len()
        invariant
            i <= v@.len(),
            v.deep_view().len() == v@.len(),
            forall|j: int| 0 <= j < i ==> v.deep_view()[j] != s@,
        decreases v@.len() - i,
    {
        if v[i].eq(s) {
            proof {
                assert(v.deep_view()[i as int] == s@);
            }
            return true;
        }
        i = i + 1;
    }
    false
}

/// The strings of `keep`, in order, without those that occur in `exclude`.
fn diff_keep(keep: &Vec<String>, exclude: &Vec<String>) -> (r: Vec<String>)
    ensures
        r.deep_view() == seq_diff(keep.deep_view(), exclude.deep_view()),
{
    let ghost pred = |p: Seq<char>| !exclude.deep_view().contains(p);
    let mut out: Vec<String> = Vec::new();
    let mut i: usize = 0;
    proof {
        reveal(Seq::filter);
        assert(keep.deep_view().take(0) =~= Seq::<Seq<char>>::empty());
        assert(out.deep_view() =~= Seq::<Seq<char>>::empty());
    }
    while i < keep.len()
        invariant
            i <= keep@.len(),
            keep.deep_view().len() == keep@.len(),
            exclude.deep_view().len() == exclude@.len(),
            pred == (|p: Seq<char>| !exclude.deep_view().contains(p)),
            out.deep_view() == keep.deep_view().take(i as int).filter(pred),
        decreases keep@.len() - i,
    {
        let ghost pre = out.deep_view();
        let ghost kdv = keep.deep_view();
        proof {
            reveal(Seq::filter);
            assert(kdv.take(i as int + 1).drop_last() =~= kdv.take(i as int));
            assert(kdv.take(i as int + 1).last() == kdv[i as int]);
            assert(keep@[i as int]@ == kdv[i as int]);
        }
        if !contains_string(exclude, &keep[i]) {
            let kept = keep[i].clone();
            out.push(kept);
            proof {
                assert(out.deep_view() =~= pre.push(kdv[i as int]));
            }
        }
        i = i + 1;
    }
    proof {
        assert(keep.deep_view().take(keep@.len() as int) =~= keep.deep_view());
    }
    out
}

/// The packages to install: those of `desired` not already present in
/// `all_installed`, in `desired`'s order. An empty result is the valid
/// "nothing to install" outcome.
pub fn to_install(desired: &Vec<String>, all_installed: &Vec<String>) -> (r: Vec<String>)
    ensures
        r.deep_view() == seq_diff(desired.deep_view(), all_installed.deep_view()),
{
    diff_keep(desired, all_installed)
}

/// The packages to remove: those of `currently_explicit` no longer named in
/// `desired_explicit`, in `currently_explicit`'s order. An empty result is
/// the valid "nothing to remove" outcome.
pub fn to_remove(desired_explicit: &Vec<String>, currently_explicit: &Vec<String>) -> (r: Vec<
    String,
>)
    ensures
        r.deep_view() == seq_diff(currently_explicit.deep_view(), desired_explicit.deep_view()),
{
    diff_keep(currently_explicit, desired_explicit)
}

/// The install diff never names a package that is already installed.
pub proof fn lemma_to_install_fresh(desired: Seq<Seq<char>>, all_installed: Seq<Seq<char>>)
    ensures
        forall|p: Seq<char>|
            all_installed.contains(p) ==> !(#[trigger] seq_diff(desired, all_installed).contains(
                p,
            )),
{
    let pred = |p: Seq<char>| !all_installed.contains(p);
    assert forall|p: Seq<char>|
        all_installed.contains(p) implies !(#[trigger] seq_diff(desired, all_installed).contains(
        p,
    )) by {
        if seq_diff(desired, all_installed).contains(p) {
            let i = choose|i: int|
                0 <= i < desired.filter(pred).len() && desired.filter(pred)[i] == p;
            desired.lemma_filter_pred(pred, i);
        }
    }
}

/// Together with the desired packages that are already installed, the
/// install diff recovers exactly the desired set.
pub proof fn lemma_to_install_partition(desired: Seq<Seq<char>>, all_installed: Seq<Seq<char>>)
    ensures
        seq_diff(desired, all_installed).to_set().union(
            desired.to_set().intersect(all_installed.to_set()),
        ) =~= desired.to_set(),
{
    let pred = |p: Seq<char>| !all_installed.contains(p);
    let diff = seq_diff(desired, all_installed);
    assert forall|p: Seq<char>|
        diff.to_set().union(desired.to_set().intersect(all_installed.to_set())).contains(
            p,
        ) implies desired.to_set().contains(p) by {
        if diff.contains(p) {
            desired.lemma_filter_contains_rev(pred, p);
        }
    }
    assert forall|p: Seq<char>| desired.to_set().contains(p) implies diff.to_set().union(
        desired.to_set().intersect(all_installed.to_set()),
    ).contains(p) by {
        if !all_installed.contains(p) {
            let i = choose|i: int| 0 <= i < desired.len() && desired[i] == p;
            desired.lemma_filter_contains(pred, i);
        }
    }
}

/// The removal diff never names a package the configuration still wants.
pub proof fn lemma_to_remove_fresh(
    desired_explicit: Seq<Seq<char>>,
    currently_explicit: Seq<Seq<char>>,
)
    ensures
        forall|p: Seq<char>|
            desired_explicit.contains(p) ==> !(#[trigger] seq_diff(
                currently_explicit,
                desired_explicit,
            ).contains(p)),
{
    lemma_to_install_fresh(currently_explicit, desired_explicit);
}

/// When everything explicitly installed is still desired, there is nothing
/// to remove.
pub proof fn lemma_to_remove_empty_when_subset(
    desired_explicit: Seq<Seq<char>>,
    currently_explicit: Seq<Seq<char>>,
)
    requires
        forall|p: Seq<char>|
            currently_explicit.contains(p) ==> desired_explicit.contains(p),
    ensures
        seq_diff(currently_explicit, desired_explicit).len() == 0,
{
    let pred = |p: Seq<char>| !desired_explicit.contains(p);
    assert(currently_explicit.all(|p: Seq<char>| !pred(p))) by {
        assert forall|i: int|
            0 <= i < currently_explicit.len() implies !pred(
            #[trigger] currently_explicit[i],
        ) by {
            assert(currently_explicit.contains(currently_explicit[i]));
        }
    }
    currently_explicit.lemma_all_neg_filter_empty(pred);
}

/// The mathematical value of a [`CommandInvocation`].
pub struct CommandInvocationV {
    pub program: Seq<char>,
    pub args: Seq<Seq<char>>,
}

/// A command ready to spawn: the program and its arguments, already split.
#[derive(Debug)]
pub struct CommandInvocation {
    pub program: String,
    pub args: Vec<String>,
}

impl View for CommandInvocation {
    type V = CommandInvocationV;

    open spec fn view(&self) -> CommandInvocationV {
        CommandInvocationV { program: self.program@, args: self.args.deep_view() }
    }
}

/// The command string a template and a package list materialize to: every
/// `{}` placeholder replaced by the space-joined package list.
pub open spec fn materialize_spec(template: Seq<char>, packages: Seq<Seq<char>>) -> Seq<char> {
    replace_placeholder_spec(template, join_spaces_spec(packages))
}

/// Materialize `template` with `packages`, as a single command string.
/// A template without a placeholder comes back unchanged.
pub fn materialize_string(template: &str, packages: &Vec<String>) -> (r: String)
    ensures
        r@ == materialize_spec(template@, packages.deep_view()),
{
    let joined = join_with_spaces(packages);
    replace_placeholder(template, joined.as_str())
}

/// Materialize `template` with `packages` and split the result into an
/// invocation. Fails with [`Error::EmptyCommand`] exactly when the
/// materialized command holds no words at all.
pub fn materialize_command(template: &str, packages: &Vec<String>) -> (r: Result<
    CommandInvocation,
    Error,
>)
    ensures
        ({
            let words = split_words_spec(materialize_spec(template@, packages.deep_view()));
            match r {
                Ok(inv) => words.len() > 0 && inv@.program == words[0] && inv@.args
                    == words.drop_first(),
                Err(e) => words.len() == 0 && e@ == ErrorV::EmptyCommand,
            }
        }),
{
    let command = materialize_string(template, packages);
    let words = split_words(command.as_str());
    let ghost wdv = words.deep_view();
    if words.len() == 0 {
        return Err(Error::EmptyCommand);
    }
    let program = words[0].clone();
    let mut args: Vec<String> = Vec::new();
    let mut j: usize = 1;
    proof {
        assert(args.deep_view() =~= wdv.subrange(1, 1));
    }
    while j < words.len()
        invariant
            1 <= j <= words@.len(),
            wdv == words.deep_view(),
            wdv.len() == words@.len(),
            args.deep_view() == wdv.subrange(1, j as int),
        decreases words@.len() - j,
    {
        let ghost pre = args.deep_view();
        let a = words[j].clone();
        args.push(a);
        proof {
            assert(words@[j as int]@ == wdv[j as int]);
            assert(args.deep_view() =~= pre.push(wdv[j as int]));
            assert(args.deep_view() =~= wdv.subrange(1, j as int + 1));
        }
        j = j + 1;
    }
    proof {
        assert(wdv.subrange(1, wdv.len() as int) =~= wdv.drop_first());
        assert(program@ == wdv[0]);
    }
    Ok(CommandInvocation { program, args })
}

/// Judge a finished command by its exit status: success is exactly exit
/// code zero, and any other exit surfaces as `CommandFailed` carrying the
/// command, the status and what the command wrote to standard error. There
/// is no retry.
pub fn command_outcome(command: String, exit_code: i32, stderr: String) -> (r: Result<(), Error>)
    ensures
        exit_code == 0 ==> r matches Ok(_),
        exit_code != 0 ==> (r matches Err(e) && e@ == (ErrorV::CommandFailed {
            command: command@,
            exit_code,
            stderr: stderr@,
        })),
{
    if exit_code == 0 {
        Ok(())
    } else {
        Err(Error::CommandFailed { command, exit_code, stderr })
    }
}

} // verus!
