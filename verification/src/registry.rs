//! Resolving a group's members against what has been built already.
//!
//! Providers are built first, then groups, each against the names that
//! exist by then. A group names members directly and pulls in the handles
//! of the providers it uses. A name that does not exist yet is an error, and
//! so is a group that ends up without members.
use vstd::prelude::*;
use vstd::string::StringExecFns;
use crate::error::ProxyError;
use crate::text::{extend_names, is_listed, listed, names};

verus! {

/// What the registry knows of one provider: its name and the names of its
/// handles, in order.
#[derive(Debug)]
pub struct ProviderEntry {
    pub name: String,
    pub proxies: Vec<String>,
}

/// Whether `i` is the position of the first provider called `name`.
pub open spec fn is_first_provider(providers: Seq<ProviderEntry>, name: Seq<char>, i: int) -> bool {
    &&& 0 <= i < providers.len()
    &&& providers[i].name@ == name
    &&& forall|j: int| 0 <= j < i ==> (#[trigger] providers[j]).name@ != name
}

/// Whether a provider is called `name`.
pub open spec fn is_provided(providers: Seq<ProviderEntry>, name: Seq<char>) -> bool {
    exists|i: int| 0 <= i < providers.len() && (#[trigger] providers[i]).name@ == name
}

/// The handles of the provider called `name`; of the first one, if several
/// are.
pub open spec fn provided(providers: Seq<ProviderEntry>, name: Seq<char>) -> Seq<Seq<char>> {
    let i = choose|i: int| is_first_provider(providers, name, i);
    names(providers[i].proxies@)
}

/// The handles of the providers called `uses`, one provider after the
/// other.
pub open spec fn pulled(providers: Seq<ProviderEntry>, uses: Seq<String>) -> Seq<Seq<char>>
    decreases uses.len(),
{
    if uses.len() == 0 {
        Seq::empty()
    } else {
        pulled(providers, uses.drop_last()) + provided(providers, uses.last()@)
    }
}

/// The names in an optional list; none if there is no list.
pub open spec fn given(list: Option<Vec<String>>) -> Seq<String> {
    match list {
        Some(l) => l@,
        None => Seq::empty(),
    }
}

/// Whether `i` is the position of the first direct member that does not
/// exist.
pub open spec fn is_first_unknown(direct: Seq<String>, known: Seq<String>, i: int) -> bool {
    &&& 0 <= i < direct.len()
    &&& !is_listed(known, direct[i]@)
    &&& forall|j: int| 0 <= j < i ==> is_listed(known, (#[trigger] direct[j])@)
}

/// Whether every direct member exists.
pub open spec fn all_known(direct: Seq<String>, known: Seq<String>) -> bool {
    forall|i: int| 0 <= i < direct.len() ==> is_listed(known, (#[trigger] direct[i])@)
}

/// Whether `i` is the position of the first used provider that does not
/// exist.
pub open spec fn is_first_unprovided(
    uses: Seq<String>,
    providers: Seq<ProviderEntry>,
    i: int,
) -> bool {
    &&& 0 <= i < uses.len()
    &&& !is_provided(providers, uses[i]@)
    &&& forall|j: int| 0 <= j < i ==> is_provided(providers, (#[trigger] uses[j])@)
}

/// Whether every used provider exists.
pub open spec fn all_provided(uses: Seq<String>, providers: Seq<ProviderEntry>) -> bool {
    forall|i: int| 0 <= i < uses.len() ==> is_provided(providers, (#[trigger] uses[i])@)
}

/// The members of a group that names `direct` and uses `uses`: the direct
/// members first, then the handles of each used provider.
pub open spec fn membership(
    direct: Seq<String>,
    uses: Seq<String>,
    providers: Seq<ProviderEntry>,
) -> Seq<Seq<char>> {
    names(direct) + pulled(providers, uses)
}

fn find_provider(providers: &Vec<ProviderEntry>, name: &String) -> (at: Option<usize>)
    ensures
        match at {
            Some(i) => is_first_provider(providers@, name@, i as int),
            None => !is_provided(providers@, name@),
        },
{
    let mut i: usize = 0;
    while i < providers.len()
        invariant
            i <= providers@.len(),
            forall|j: int| 0 <= j < i ==> (#[trigger] providers@[j]).name@ != name@,
        decreases providers.len() - i,
    {
        if providers[i].name == *name {
            return Some(i);
        }
        i += 1;
    }
    None
}

/// Resolves a group's members, in order: the members it names directly,
/// then the handles of each provider it uses. `known` holds the names of the
/// proxies and groups that exist already, `providers` the providers.
///
/// Fails with `InvalidConfig`, and says which name, for the first direct
/// member that does not exist; if all exist, for the first used provider that
/// does not; and, if nothing is missing, when the group has no members at
/// all.
pub fn resolve_members(
    proxies: &Option<Vec<String>>,
    use_provider: &Option<Vec<String>>,
    known: &Vec<String>,
    providers: &Vec<ProviderEntry>,
) -> (resolved: Result<Vec<String>, ProxyError>)
    ensures
        match resolved {
            Ok(members) => {
                &&& all_known(given(*proxies), known@)
                &&& all_provided(given(*use_provider), providers@)
                &&& names(members@) == membership(given(*proxies), given(*use_provider), providers@)
                &&& members@.len() > 0
            },
            Err(e) => {
                &&& e matches ProxyError::InvalidConfig(why)
                &&& {
                    ||| exists|i: int|
                        is_first_unknown(given(*proxies), known@, i) && why@ == "proxy not found: "@
                            + (#[trigger] given(*proxies)[i])@
                    ||| all_known(given(*proxies), known@) && exists|i: int|
                        is_first_unprovided(given(*use_provider), providers@, i) && why@
                            == "provider not found: "@ + (#[trigger] given(*use_provider)[i])@
                    ||| all_known(given(*proxies), known@) && all_provided(
                        given(*use_provider),
                        providers@,
                    ) && membership(given(*proxies), given(*use_provider), providers@).len() == 0
                        && why@ == "no proxies"@
                }
            },
        },
{
    let mut members: Vec<String> = Vec::new();
    match proxies {
        Some(direct) => {
            let mut i: usize = 0;
            while i < direct.len()
                invariant
                    i <= direct@.len(),
                    given(*proxies) == direct@,
                    forall|j: int| 0 <= j < i ==> is_listed(known@, (#[trigger] direct@[j])@),
                decreases direct.len() - i,
            {
                if !listed(known, &direct[i]) {
                    assert(is_first_unknown(given(*proxies), known@, i as int));
                    assert(given(*proxies)[i as int] == direct@[i as int]);
                    return Err(
                        ProxyError::InvalidConfig(
                            String::from_str("proxy not found: ").concat(direct[i].as_str()),
                        ),
                    );
                }
                i += 1;
            }
            extend_names(&mut members, direct);
        },
        None => {},
    }
    assert(names(members@) =~= names(given(*proxies)));
    match use_provider {
        Some(uses) => {
            let mut i: usize = 0;
            assert(names(members@) =~= membership(given(*proxies), uses@.take(0), providers@));
            while i < uses.len()
                invariant
                    i <= uses@.len(),
                    given(*use_provider) == uses@,
                    all_known(given(*proxies), known@),
                    forall|j: int| 0 <= j < i ==> is_provided(providers@, (#[trigger] uses@[j])@),
                    names(members@) == membership(
                        given(*proxies),
                        uses@.take(i as int),
                        providers@,
                    ),
                decreases uses.len() - i,
            {
                match find_provider(providers, &uses[i]) {
                    Some(at) => {
                        extend_names(&mut members, &providers[at].proxies);
                        assert(uses@.take(i as int + 1).drop_last() =~= uses@.take(i as int));
                        assert(uses@.take(i as int + 1).last() == uses@[i as int]);
                        assert(names(members@) =~= membership(
                            given(*proxies),
                            uses@.take(i as int + 1),
                            providers@,
                        ));
                    },
                    None => {
                        assert(is_first_unprovided(given(*use_provider), providers@, i as int));
                        assert(given(*use_provider)[i as int] == uses@[i as int]);
                        return Err(
                            ProxyError::InvalidConfig(
                                String::from_str("provider not found: ").concat(uses[i].as_str()),
                            ),
                        );
                    },
                }
                i += 1;
            }
            assert(uses@.take(i as int) =~= uses@);
        },
        None => {
            assert(names(members@) =~= membership(given(*proxies), given(*use_provider), providers@));
        },
    }
    if members.len() == 0 {
        return Err(ProxyError::InvalidConfig(String::from_str("no proxies")));
    }
    Ok(members)
}

} // verus!
