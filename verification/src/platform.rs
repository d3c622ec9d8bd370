//! The interface to the platform provider, and the process-wide output
//! settings the front end pushes to it.
//!
//! The provider is an outside collaborator: asked for a capability tree,
//! it either hands one back or signals that the platform is unsupported.
//! Which answer comes is its own affair, but every interaction is visible
//! in its event log, so the front end's contracts can say when it was
//! asked, how often, and what it answered. `StaticProvider` is the one
//! provider defined here: a fixed table of platforms, for tests and for
//! front ends without hardware behind them.

use vstd::prelude::*;

use crate::tree::fold_name;
use crate::tree::models_of;
use crate::tree::names_match;
use crate::tree::CapabilityTree;

verus! {

/// How key/value output is rendered.
#[derive(Clone, Copy, Debug, PartialEq, Eq, Structural)]
pub enum KvPairStyle {
    /// Only the value.
    Value,
    /// The value of one single key.
    Single,
    /// `key=value` pairs.
    Pair,
    /// Long format.
    Long,
}

/// The process-wide output settings shared with the platform provider:
/// the key/value rendering style and the single key to report, if any.
#[derive(Debug)]
pub struct Globals {
    pub kv_style: KvPairStyle,
    pub single_key: Option<String>,
}

/// The mathematical image of the shared output settings.
pub struct GlobalsV {
    pub kv_style: KvPairStyle,
    pub single_key: Option<Seq<char>>,
}

impl View for Globals {
    type V = GlobalsV;

    open spec fn view(&self) -> GlobalsV {
        GlobalsV { kv_style: self.kv_style, single_key: self.single_key.deep_view() }
    }
}

impl Globals {
    /// Fresh settings: plain value style, no single key.
    pub fn init() -> (g: Globals)
        ensures
            g.kv_style == KvPairStyle::Value,
            g.single_key is None,
    {
        Globals { kv_style: KvPairStyle::Value, single_key: None }
    }

    /// Replace the key/value rendering style.
    pub fn set_kv_pair_style(&mut self, style: KvPairStyle)
        ensures
            final(self).kv_style == style,
            final(self).single_key == old(self).single_key,
    {
        self.kv_style = style;
    }

    /// The current key/value rendering style.
    pub fn get_kv_pair_style(&self) -> (r: KvPairStyle)
        ensures
            r == self.kv_style,
    {
        self.kv_style
    }

    /// Record the single key whose value is to be reported.
    pub fn set_single_key(&mut self, key: String)
        ensures
            final(self).single_key == Some(key),
            final(self).kv_style == old(self).kv_style,
    {
        self.single_key = Some(key);
    }
}

/// The platform provider could not identify or support the platform.
#[derive(Clone, Copy, Debug, PartialEq, Eq, Structural)]
pub struct Unsupported;

/// One recorded interaction with the platform provider.
pub enum ProviderEvent {
    /// `resolve` ran with the given override and answered with a tree
    /// (`true`) or with `Unsupported` (`false`).
    Resolved(Option<Seq<char>>, bool),
    /// `print_platforms` ran and returned the given status.
    Listed(i32),
    /// `print_tree` ran on a tree of the given name.
    TreeShown(Seq<char>),
}

/// The platform provider the front end consumes: given an optional
/// platform-id override it hands back a capability tree or signals
/// `Unsupported`; it can also list the platforms it supports and display
/// a tree, both through its own output channel. Every call is visible in
/// the event log, so a caller's contract can count and inspect them.
pub trait PlatformProvider {
    /// The log of every interaction so far, oldest first.
    spec fn events(&self) -> Seq<ProviderEvent>;

    /// A capability tree for the detected platform, or for the platform
    /// named by the override.
    fn resolve(&mut self, platform_id: &Option<String>) -> (r: Result<CapabilityTree, Unsupported>)
        ensures
            final(self).events() == old(self).events().push(
                ProviderEvent::Resolved(platform_id.deep_view(), r is Ok),
            ),
    ;

    /// List the supported platform ids; the returned status is zero on
    /// success.
    fn print_platforms(&mut self) -> (status: i32)
        ensures
            final(self).events() == old(self).events().push(ProviderEvent::Listed(status)),
    ;

    /// Display the given capability tree.
    fn print_tree(&mut self, tree: &CapabilityTree)
        ensures
            final(self).events() == old(self).events().push(ProviderEvent::TreeShown(tree.name@)),
    ;
}

/// One recorded provider interaction, as executable data.
#[derive(Debug, PartialEq, Eq)]
pub enum ProviderCall {
    /// `resolve` ran with the override and answered ok or not.
    Resolved(Option<String>, bool),
    /// `print_platforms` ran and returned the status.
    Listed(i32),
    /// `print_tree` ran on a tree of the given name.
    TreeShown(String),
}

/// The event a recorded provider call stands for.
pub open spec fn provider_call_view(c: ProviderCall) -> ProviderEvent {
    match c {
        ProviderCall::Resolved(id, ok) => ProviderEvent::Resolved(id.deep_view(), ok),
        ProviderCall::Listed(status) => ProviderEvent::Listed(status),
        ProviderCall::TreeShown(name) => ProviderEvent::TreeShown(name@),
    }
}

/// The index of the first platform at or after `i` whose folded name is
/// `key`, in table order.
pub open spec fn find_platform(
    table: Seq<(String, CapabilityTree)>,
    key: Seq<u32>,
    i: int,
) -> Option<int>
    decreases table.len() - i,
{
    if i < 0 || i >= table.len() {
        None::<int>
    } else if fold_name(table[i].0@) == key {
        Some(i)
    } else {
        find_platform(table, key, i + 1)
    }
}

/// The platform names of a table, in order.
pub open spec fn platform_names(table: Seq<(String, CapabilityTree)>) -> Seq<Seq<char>> {
    table.map_values(|p: (String, CapabilityTree)| p.0@)
}

/// A copy of the given tree was answered: same platform name, same
/// command forest.
pub open spec fn answered_tree(r: Result<CapabilityTree, Unsupported>, t: CapabilityTree) -> bool {
    r matches Ok(a) && a.name@ == t.name@ && models_of(a.root@) == models_of(t.root@)
}

/// A provider over a fixed table of named platforms: an override resolves
/// to the first platform whose name matches it case-insensitively, and no
/// override resolves to the first platform in the table.
#[derive(Debug)]
pub struct StaticProvider {
    pub platforms: Vec<(String, CapabilityTree)>,
    pub listed: Vec<String>,
    pub shown_trees: Vec<String>,
    pub list_status: i32,
    pub calls: Vec<ProviderCall>,
}

impl StaticProvider {
    /// A provider over the given table.
    pub fn new(platforms: Vec<(String, CapabilityTree)>) -> (r: StaticProvider)
        ensures
            r.platforms == platforms,
            r.listed@.len() == 0,
            r.shown_trees@.len() == 0,
            r.list_status == 0,
            r.events() == Seq::<ProviderEvent>::empty(),
    {
        let r = StaticProvider {
            platforms,
            listed: Vec::new(),
            shown_trees: Vec::new(),
            list_status: 0,
            calls: Vec::new(),
        };
        proof {
            assert(r.events() =~= Seq::<ProviderEvent>::empty());
        }
        r
    }

    /// The table's first platform whose name matches the override
    /// case-insensitively, or the first platform at all without one.
    fn lookup(&self, platform_id: &Option<String>) -> (r: Result<CapabilityTree, Unsupported>)
        ensures
            match *platform_id {
                Some(id) => match find_platform(self.platforms@, fold_name(id@), 0) {
                    Some(j) => answered_tree(r, self.platforms@[j].1),
                    None => r == Err::<CapabilityTree, Unsupported>(Unsupported),
                },
                None => if self.platforms@.len() > 0 {
                    answered_tree(r, self.platforms@[0].1)
                } else {
                    r == Err::<CapabilityTree, Unsupported>(Unsupported)
                },
            },
    {
        match platform_id {
            Some(id) => {
                let ghost key = fold_name(id@);
                let mut j: usize = 0;
                while j < self.platforms.len()
                    invariant
                        j <= self.platforms@.len(),
                        *platform_id == Some(*id),
                        key == fold_name(id@),
                        find_platform(self.platforms@, key, 0) == find_platform(
                            self.platforms@,
                            key,
                            j as int,
                        ),
                    decreases self.platforms@.len() - j,
                {
                    if names_match(self.platforms[j].0.as_str(), id.as_str()) {
                        proof {
                            assert(find_platform(self.platforms@, key, j as int) == Some(j as int));
                        }
                        return Ok(self.platforms[j].1.duplicate());
                    }
                    j = j + 1;
                }
                proof {
                    assert(find_platform(self.platforms@, key, 0) is None);
                }
                Err(Unsupported)
            },
            None => {
                if self.platforms.len() > 0 {
                    Ok(self.platforms[0].1.duplicate())
                } else {
                    Err(Unsupported)
                }
            },
        }
    }
}

impl PlatformProvider for StaticProvider {
    open spec fn events(&self) -> Seq<ProviderEvent> {
        self.calls@.map_values(|c: ProviderCall| provider_call_view(c))
    }

    fn resolve(&mut self, platform_id: &Option<String>) -> (r: Result<CapabilityTree, Unsupported>)
        ensures
            final(self).platforms == old(self).platforms,
            final(self).list_status == old(self).list_status,
            match *platform_id {
                Some(id) => match find_platform(old(self).platforms@, fold_name(id@), 0) {
                    Some(j) => answered_tree(r, old(self).platforms@[j].1),
                    None => r == Err::<CapabilityTree, Unsupported>(Unsupported),
                },
                None => if old(self).platforms@.len() > 0 {
                    answered_tree(r, old(self).platforms@[0].1)
                } else {
                    r == Err::<CapabilityTree, Unsupported>(Unsupported)
                },
            },
    {
        let outcome: Result<CapabilityTree, Unsupported> = self.lookup(platform_id);
        let ok: bool = match &outcome {
            Ok(_) => true,
            Err(_) => false,
        };
        let id_copy: Option<String> = match platform_id {
            Some(p) => Some(p.clone()),
            None => None,
        };
        self.calls.push(ProviderCall::Resolved(id_copy, ok));
        proof {
            assert(self.events() =~= old(self).events().push(
                ProviderEvent::Resolved(platform_id.deep_view(), outcome is Ok),
            ));
        }
        outcome
    }

    fn print_platforms(&mut self) -> (status: i32)
        ensures
            status == old(self).list_status,
            final(self).platforms == old(self).platforms,
            final(self).list_status == old(self).list_status,
            final(self).listed.deep_view() == old(self).listed.deep_view() + platform_names(
                old(self).platforms@,
            ),
    {
        let mut j: usize = 0;
        while j < self.platforms.len()
            invariant
                j <= self.platforms@.len(),
                self.calls == old(self).calls,
                self.platforms == old(self).platforms,
                self.list_status == old(self).list_status,
                self.listed.deep_view() == old(self).listed.deep_view() + platform_names(
                    old(self).platforms@.take(j as int),
                ),
            decreases self.platforms@.len() - j,
        {
            let ghost pre = self.listed.deep_view();
            let name: String = self.platforms[j].0.clone();
            self.listed.push(name);
            proof {
                assert(self.listed.deep_view() =~= pre.push(self.platforms@[j as int].0@));
                assert(platform_names(old(self).platforms@.take(j + 1 as int)) =~= platform_names(
                    old(self).platforms@.take(j as int),
                ).push(old(self).platforms@[j as int].0@));
                assert(self.listed.deep_view() =~= old(self).listed.deep_view() + platform_names(
                    old(self).platforms@.take(j + 1 as int),
                ));
            }
            j = j + 1;
        }
        proof {
            assert(old(self).platforms@.take(old(self).platforms@.len() as int) =~= old(
                self,
            ).platforms@);
        }
        let status: i32 = self.list_status;
        self.calls.push(ProviderCall::Listed(status));
        proof {
            assert(self.events() =~= old(self).events().push(ProviderEvent::Listed(status)));
        }
        status
    }

    fn print_tree(&mut self, tree: &CapabilityTree)
        ensures
            final(self).shown_trees.deep_view() == old(self).shown_trees.deep_view().push(
                tree.name@,
            ),
            final(self).platforms == old(self).platforms,
    {
        let ghost pre = self.shown_trees.deep_view();
        self.shown_trees.push(tree.name.clone());
        proof {
            assert(self.shown_trees.deep_view() =~= pre.push(tree.name@));
        }
        self.calls.push(ProviderCall::TreeShown(tree.name.clone()));
        proof {
            assert(self.events() =~= old(self).events().push(
                ProviderEvent::TreeShown(tree.name@),
            ));
        }
    }
}

} // verus!
