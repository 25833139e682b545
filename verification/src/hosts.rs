//! Assembling the host list: manual hosts from `hosts.toml` merged with the
//! hosts imported from `~/.ssh/config`, and the subset that is persisted.

use vstd::prelude::*;

use crate::host::{Host, HostSource};

verus! {

/// `h` answers to `name`: either as its current name, or as the SSH-config name
/// it was renamed from.
pub open spec fn claims_name(h: Host, name: Seq<char>) -> bool {
    ||| h.name@ == name
    ||| (h.original_ssh_host matches Some(o) && o@ == name)
}

/// Some manual host answers to `name`.
pub open spec fn shadowed(manual: Seq<Host>, name: Seq<char>) -> bool {
    exists|i: int| 0 <= i < manual.len() && #[trigger] claims_name(manual[i], name)
}

/// The test that an SSH-config host passes to survive the merge: no manual host
/// answers to its name.
pub open spec fn survives(manual: Seq<Host>) -> spec_fn(Host) -> bool {
    |h: Host| !shadowed(manual, h.name@)
}

/// The SSH-config hosts that survive the merge, in their original order.
pub open spec fn surviving_ssh_hosts(manual: Seq<Host>, ssh_hosts: Seq<Host>) -> Seq<Host> {
    ssh_hosts.filter(survives(manual))
}

/// The merged host list: every manual host, in order, followed by the SSH-config
/// hosts that no manual host shadows, in order.
pub open spec fn merged(manual: Seq<Host>, ssh_hosts: Seq<Host>) -> Seq<Host> {
    manual + surviving_ssh_hosts(manual, ssh_hosts)
}

/// The test that a host passes to be written to `hosts.toml`.
pub open spec fn is_manual() -> spec_fn(Host) -> bool {
    |h: Host| h.source == HostSource::Manual
}

/// The hosts that are written to `hosts.toml`: the manual ones, in order.
pub open spec fn persisted(hosts: Seq<Host>) -> Seq<Host> {
    hosts.filter(is_manual())
}

/// Whether one of the first `n` hosts of `hosts` answers to `name`.
fn is_shadowed(hosts: &Vec<Host>, n: usize, name: &String) -> (found: bool)
    requires
        n <= hosts@.len(),
    ensures
        found == shadowed(hosts@.take(n as int), name@),
{
    let ghost prefix = hosts@.take(n as int);
    let mut i: usize = 0;
    while i < n
        invariant
            n <= hosts@.len(),
            i <= n,
            prefix == hosts@.take(n as int),
            forall|j: int| 0 <= j < i ==> !claims_name(#[trigger] prefix[j], name@),
        decreases n - i,
    {
        let h = &hosts[i];
        assert(prefix[i as int] == *h);
        if h.name == *name {
            assert(claims_name(prefix[i as int], name@));
            return true;
        }
        match &h.original_ssh_host {
            Some(o) => {
                if *o == *name {
                    assert(claims_name(prefix[i as int], name@));
                    return true;
                }
            },
            None => {},
        }
        i = i + 1;
    }
    false
}

/// Merges manually-added hosts with hosts imported from `~/.ssh/config`.
///
/// Manual entries come first and take priority: an SSH-config host is dropped
/// when a manual host already uses its name, or when a manual host records it
/// as a renamed original (via `original_ssh_host`).
pub fn merge_hosts(manual: Vec<Host>, ssh_hosts: Vec<Host>) -> (all: Vec<Host>)
    ensures
        all@ == merged(manual@, ssh_hosts@),
{
    let ghost m = manual@;
    let ghost s = ssh_hosts@;
    let ghost keep = survives(m);
    let n = manual.len();
    let mut all = manual;
    for h in it: ssh_hosts.into_iter()
        invariant
            n == m.len(),
            keep == survives(m),
            it.seq() == s,
            all@ == m + s.take(it.index() as int).filter(keep),
    {
        let ghost i = it.index();
        assert(all@.take(n as int) =~= m);
        let drop = is_shadowed(&all, n, &h.name);
        proof {
            // One more SSH-config host examined: the filter grows by it exactly
            // when no manual host answers to its name.
            reveal(Seq::filter);
            let t = s.take(i + 1);
            assert(t.drop_last() =~= s.take(i as int));
            assert(t.filter(keep) == if keep(h) {
                s.take(i as int).filter(keep).push(h)
            } else {
                s.take(i as int).filter(keep)
            });
        }
        if !drop {
            all.push(h);
        }
        assert(all@ =~= m + s.take(i + 1).filter(keep));
    }
    assert(s.take(s.len() as int) =~= s);
    all
}

/// The hosts that `save_hosts` persists: the manual ones, in their order.
/// SSH-config hosts are re-imported from `~/.ssh/config` on every start.
pub fn manual_hosts(hosts: Vec<Host>) -> (manual: Vec<Host>)
    ensures
        manual@ == persisted(hosts@),
{
    let ghost s = hosts@;
    let ghost keep = is_manual();
    let mut out: Vec<Host> = Vec::new();
    for h in it: hosts.into_iter()
        invariant
            keep == is_manual(),
            it.seq() == s,
            out@ == s.take(it.index() as int).filter(keep),
    {
        let ghost i = it.index();
        proof {
            reveal(Seq::filter);
            let t = s.take(i + 1);
            assert(t.drop_last() =~= s.take(i as int));
            assert(t.filter(keep) == if keep(h) {
                s.take(i as int).filter(keep).push(h)
            } else {
                s.take(i as int).filter(keep)
            });
        }
        if h.source == HostSource::Manual {
            out.push(h);
        }
        assert(out@ =~= s.take(i + 1).filter(keep));
    }
    assert(s.take(s.len() as int) =~= s);
    out
}

/// Assembles the full host list from what was read at startup: the manual hosts
/// of `hosts.toml` (or the error that reading or parsing it gave) and, where
/// `~/.ssh/config` exists, the hosts parsed from it (or the parse error).
///
/// An error on `hosts.toml` is returned as it is. A missing or unparsable
/// `~/.ssh/config` contributes no hosts. Otherwise the result is
/// [`merge_hosts`] of the two lists.
pub fn load_all_hosts<E, F>(
    manual: Result<Vec<Host>, E>,
    ssh_config: Option<Result<Vec<Host>, F>>,
) -> (all: Result<Vec<Host>, E>)
    ensures
        match manual {
            Err(e) => all == Err::<Vec<Host>, E>(e),
            Ok(m) => all matches Ok(a) && a@ == merged(
                m@,
                match ssh_config {
                    Some(Ok(s)) => s@,
                    _ => Seq::<Host>::empty(),
                },
            ),
        },
{
    let manual = match manual {
        Ok(m) => m,
        Err(e) => return Err(e),
    };
    let ssh_hosts: Vec<Host> = match ssh_config {
        Some(Ok(h)) => h,
        _ => Vec::new(),
    };
    Ok(merge_hosts(manual, ssh_hosts))
}

/// Filtering keeps a sequence whole when every element passes.
proof fn lemma_filter_keeps_all(s: Seq<Host>, pred: spec_fn(Host) -> bool)
    requires
        forall|i: int| 0 <= i < s.len() ==> pred(#[trigger] s[i]),
    ensures
        s.filter(pred) == s,
    decreases s.len(),
{
    reveal(Seq::filter);
    if s.len() > 0 {
        lemma_filter_keeps_all(s.drop_last(), pred);
        assert(s.drop_last().push(s.last()) =~= s);
    }
}

/// Filtering empties a sequence when no element passes.
proof fn lemma_filter_keeps_none(s: Seq<Host>, pred: spec_fn(Host) -> bool)
    requires
        forall|i: int| 0 <= i < s.len() ==> !pred(#[trigger] s[i]),
    ensures
        s.filter(pred).len() == 0,
    decreases s.len(),
{
    reveal(Seq::filter);
    if s.len() > 0 {
        lemma_filter_keeps_none(s.drop_last(), pred);
    }
}

/// Shape of the merged host list: the manual hosts come first, unchanged and in
/// order; every later entry is an SSH-config host to which no manual host
/// answers (neither by current name nor as a renamed original); and every
/// SSH-config host to which no manual host answers is kept.
pub proof fn lemma_merge_manual_first_and_wins(manual: Seq<Host>, ssh_hosts: Seq<Host>)
    ensures
        merged(manual, ssh_hosts).len() >= manual.len(),
        merged(manual, ssh_hosts).take(manual.len() as int) == manual,
        forall|i: int| manual.len() <= i < merged(manual, ssh_hosts).len() ==> {
            &&& ssh_hosts.contains(#[trigger] merged(manual, ssh_hosts)[i])
            &&& !shadowed(manual, merged(manual, ssh_hosts)[i].name@)
        },
        forall|j: int| 0 <= j < ssh_hosts.len() && !shadowed(manual, #[trigger] ssh_hosts[j].name@)
            ==> merged(manual, ssh_hosts).contains(ssh_hosts[j]),
{
    let keep = survives(manual);
    let kept = ssh_hosts.filter(keep);
    let all = merged(manual, ssh_hosts);
    ssh_hosts.filter_lemma(keep);
    assert(all.take(manual.len() as int) =~= manual);
    assert forall|i: int| manual.len() <= i < all.len() implies {
        &&& ssh_hosts.contains(#[trigger] all[i])
        &&& !shadowed(manual, all[i].name@)
    } by {
        let k = i - manual.len();
        assert(all[i] == kept[k]);
        assert(keep(kept[k]));
        assert(kept.contains(kept[k]));
        ssh_hosts.lemma_filter_contains_rev(keep, kept[k]);
    }
    assert forall|j: int| 0 <= j < ssh_hosts.len() && !shadowed(manual, #[trigger] ssh_hosts[j].name@)
        implies all.contains(ssh_hosts[j]) by {
        assert(keep(ssh_hosts[j]));
        assert(kept.contains(ssh_hosts[j]));
        let k = choose|k: int| 0 <= k < kept.len() && kept[k] == ssh_hosts[j];
        assert(all[manual.len() + k] == ssh_hosts[j]);
    }
}

/// Saving the loaded host list writes back exactly the manual hosts: when the
/// hosts of `hosts.toml` are all manual and the imported ones all come from
/// `~/.ssh/config`, the hosts persisted from their merge are the manual hosts,
/// unchanged and in order.
pub proof fn lemma_saving_merged_hosts_keeps_the_manual_ones(manual: Seq<Host>, ssh_hosts: Seq<Host>)
    requires
        forall|i: int| 0 <= i < manual.len() ==> (#[trigger] manual[i]).source == HostSource::Manual,
        forall|j: int| 0 <= j < ssh_hosts.len() ==> (#[trigger] ssh_hosts[j]).source
            == HostSource::SshConfig,
    ensures
        persisted(merged(manual, ssh_hosts)) == manual,
{
    let kept = surviving_ssh_hosts(manual, ssh_hosts);
    Seq::filter_distributes_over_add(manual, kept, is_manual());
    lemma_filter_keeps_all(manual, is_manual());
    assert forall|i: int| 0 <= i < kept.len() implies !is_manual()(#[trigger] kept[i]) by {
        assert(kept.contains(kept[i]));
        ssh_hosts.lemma_filter_contains_rev(survives(manual), kept[i]);
    }
    lemma_filter_keeps_none(kept, is_manual());
    assert(persisted(merged(manual, ssh_hosts)) =~= manual);
}

/// The merge, stated over names alone: the manual hosts come first, unchanged;
/// every later entry is an SSH-config host whose name is neither the name nor
/// the renamed original (`original_ssh_host`) of any manual host; and every
/// SSH-config host whose name is neither is kept — whatever the other fields
/// (hostname, user, ...) of the manual hosts hold.
pub proof fn law_ssh_host_dropped_exactly_when_a_manual_host_claims_its_name(
    manual: Seq<Host>,
    ssh_hosts: Seq<Host>,
)
    ensures
        merged(manual, ssh_hosts).len() >= manual.len(),
        merged(manual, ssh_hosts).take(manual.len() as int) == manual,
        forall|i: int| manual.len() <= i < merged(manual, ssh_hosts).len() ==> {
            &&& ssh_hosts.contains(#[trigger] merged(manual, ssh_hosts)[i])
            &&& forall|k: int| 0 <= k < manual.len() ==> {
                &&& (#[trigger] manual[k]).name@ != merged(manual, ssh_hosts)[i].name@
                &&& !(manual[k].original_ssh_host matches Some(o) && o@ == merged(
                    manual,
                    ssh_hosts,
                )[i].name@)
            }
        },
        forall|j: int| 0 <= j < ssh_hosts.len() && (forall|k: int| 0 <= k < manual.len() ==> {
            &&& (#[trigger] manual[k]).name@ != ssh_hosts[j].name@
            &&& !(manual[k].original_ssh_host matches Some(o) && o@ == ssh_hosts[j].name@)
        }) ==> merged(manual, ssh_hosts).subrange(
            manual.len() as int,
            merged(manual, ssh_hosts).len() as int,
        ).contains(#[trigger] ssh_hosts[j]),
{
    lemma_merge_manual_first_and_wins(manual, ssh_hosts);
    let all = merged(manual, ssh_hosts);
    assert forall|i: int, k: int| manual.len() <= i < all.len() && 0 <= k < manual.len() implies {
        &&& (#[trigger] manual[k]).name@ != (#[trigger] all[i]).name@
        &&& !(manual[k].original_ssh_host matches Some(o) && o@ == all[i].name@)
    } by {
        if claims_name(manual[k], all[i].name@) {
            assert(shadowed(manual, all[i].name@));
        }
    }
    assert forall|j: int| 0 <= j < ssh_hosts.len() && (forall|k: int| 0 <= k < manual.len() ==> {
        &&& (#[trigger] manual[k]).name@ != ssh_hosts[j].name@
        &&& !(manual[k].original_ssh_host matches Some(o) && o@ == ssh_hosts[j].name@)
    }) implies all.subrange(manual.len() as int, all.len() as int).contains(ssh_hosts[j]) by {
        if shadowed(manual, ssh_hosts[j].name@) {
            let k = choose|k: int| 0 <= k < manual.len() && #[trigger] claims_name(
                manual[k],
                ssh_hosts[j].name@,
            );
            assert(manual[k].name@ != ssh_hosts[j].name@);
        }
        let kept = surviving_ssh_hosts(manual, ssh_hosts);
        ssh_hosts.filter_lemma(survives(manual));
        assert(survives(manual)(ssh_hosts[j]));
        assert(kept.contains(ssh_hosts[j]));
        assert(all.subrange(manual.len() as int, all.len() as int) =~= kept);
    }
}

/// What is persisted, stated over the origin alone: only manual hosts, each
/// taken from the list, and every manual host of the list.
pub proof fn law_persisted_hosts_are_exactly_the_manual_ones(hosts: Seq<Host>)
    ensures
        persisted(hosts).len() <= hosts.len(),
        forall|i: int| 0 <= i < persisted(hosts).len() ==> {
            &&& (#[trigger] persisted(hosts)[i]).source == HostSource::Manual
            &&& hosts.contains(persisted(hosts)[i])
        },
        forall|j: int| 0 <= j < hosts.len() && (#[trigger] hosts[j]).source == HostSource::Manual
            ==> persisted(hosts).contains(hosts[j]),
{
    hosts.filter_lemma(is_manual());
    assert forall|i: int| 0 <= i < persisted(hosts).len() implies {
        &&& (#[trigger] persisted(hosts)[i]).source == HostSource::Manual
        &&& hosts.contains(persisted(hosts)[i])
    } by {
        assert(persisted(hosts).contains(persisted(hosts)[i]));
        hosts.lemma_filter_contains_rev(is_manual(), persisted(hosts)[i]);
    }
}

/// The merge goes SSH-config host by SSH-config host: merging a list split in
/// two gives the merge of the first part followed by the SSH-config part of the
/// merge of the second, so the surviving SSH-config hosts keep their order.
pub proof fn law_merge_keeps_ssh_order(manual: Seq<Host>, first: Seq<Host>, second: Seq<Host>)
    ensures
        merged(manual, first + second) == merged(manual, first) + merged(manual, second).skip(
            manual.len() as int,
        ),
{
    Seq::filter_distributes_over_add(first, second, survives(manual));
    assert(merged(manual, second).skip(manual.len() as int) =~= surviving_ssh_hosts(manual, second));
    assert(merged(manual, first + second) =~= merged(manual, first) + merged(manual, second).skip(
        manual.len() as int,
    ));
}

/// A single SSH-config host is appended after the manual hosts unless a manual
/// host has its name as its own name or as its renamed original; then the
/// merge is the manual hosts alone.
pub proof fn law_merge_of_one_ssh_host(manual: Seq<Host>, h: Host)
    ensures
        (exists|k: int| 0 <= k < manual.len() && ((#[trigger] manual[k]).name@ == h.name@ || (
        manual[k].original_ssh_host matches Some(o) && o@ == h.name@))) ==> merged(manual, seq![h])
            == manual,
        (forall|k: int| 0 <= k < manual.len() ==> (#[trigger] manual[k]).name@ != h.name@ && !(
        manual[k].original_ssh_host matches Some(o) && o@ == h.name@)) ==> merged(manual, seq![h])
            == manual.push(h),
{
    reveal_with_fuel(Seq::filter, 2);
    let one = seq![h];
    assert(one.drop_last() =~= Seq::<Host>::empty());
    assert(one.last() == h);
    if exists|k: int| 0 <= k < manual.len() && ((#[trigger] manual[k]).name@ == h.name@ || (
    manual[k].original_ssh_host matches Some(o) && o@ == h.name@)) {
        let k = choose|k: int| 0 <= k < manual.len() && ((#[trigger] manual[k]).name@ == h.name@ || (
        manual[k].original_ssh_host matches Some(o) && o@ == h.name@));
        assert(claims_name(manual[k], h.name@));
        assert(merged(manual, one) =~= manual);
    }
    if forall|k: int| 0 <= k < manual.len() ==> (#[trigger] manual[k]).name@ != h.name@ && !(
    manual[k].original_ssh_host matches Some(o) && o@ == h.name@) {
        if shadowed(manual, h.name@) {
            let k = choose|k: int| 0 <= k < manual.len() && #[trigger] claims_name(manual[k], h.name@);
            assert(manual[k].name@ != h.name@);
        }
        assert(merged(manual, one) =~= manual.push(h));
    }
}

/// What is persisted goes host by host: a split list persists as the two
/// parts persisted one after the other, and a single host is persisted exactly
/// when it is manual.
pub proof fn law_persisting_goes_host_by_host(first: Seq<Host>, second: Seq<Host>, h: Host)
    ensures
        persisted(first + second) == persisted(first) + persisted(second),
        h.source == HostSource::Manual ==> persisted(seq![h]) == seq![h],
        h.source != HostSource::Manual ==> persisted(seq![h]) == Seq::<Host>::empty(),
{
    Seq::filter_distributes_over_add(first, second, is_manual());
    reveal_with_fuel(Seq::filter, 2);
    let one = seq![h];
    assert(one.drop_last() =~= Seq::<Host>::empty());
    assert(one.last() == h);
    if h.source == HostSource::Manual {
        assert(persisted(one) =~= one);
    } else {
        assert(persisted(one) =~= Seq::<Host>::empty());
    }
}

} // verus!
