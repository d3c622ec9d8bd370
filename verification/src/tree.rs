//! The capability tree that a platform provider exposes: a named root with
//! an ordered forest of commands, each command either a leaf (an invocable
//! operation, identified by an opaque id that the front end's `Invoker`
//! interprets) or a group of child commands.
//!
//! Command names are compared case-insensitively; the stored name keeps its
//! original case for display. Folding is defined on the characters' scalar
//! values, mapping the ASCII upper-case letters onto their lower-case
//! counterparts and leaving every other character as it is.

use vstd::prelude::*;

verus! {

use vstd::string::StrSliceExecFns;
use vstd::string::StringExecFns;

/// What a command does: delegate to an invocable operation, or hold
/// further child commands.
#[derive(Debug)]
pub enum CommandKind {
    /// A terminal command: the id names the invocable operation that the
    /// front end's `Invoker` runs for it.
    Leaf(u64),
    /// A grouping command with an ordered sequence of children.
    Group(Vec<Command>),
}

/// A node in the capability tree: a name (unique among siblings when
/// compared case-insensitively), a description for listings, and the
/// node's kind.
#[derive(Debug)]
pub struct Command {
    pub name: String,
    pub desc: String,
    pub kind: CommandKind,
}

/// The immutable snapshot a platform provider hands out: the platform's
/// name and the root forest of commands.
#[derive(Debug)]
pub struct CapabilityTree {
    pub name: String,
    pub root: Vec<Command>,
}

/// The mathematical image of a command's kind.
pub enum CommandKindV {
    Leaf(u64),
    Group(Seq<CommandV>),
}

/// The mathematical image of a command: its name and description as
/// character sequences, and its kind with children modelled in turn.
pub struct CommandV {
    pub name: Seq<char>,
    pub desc: Seq<char>,
    pub kind: CommandKindV,
}

impl Command {
    /// The mathematical image of this command.
    pub open spec fn model(self) -> CommandV
        decreases self,
    {
        CommandV {
            name: self.name@,
            desc: self.desc@,
            kind: match self.kind {
                CommandKind::Leaf(id) => CommandKindV::Leaf(id),
                CommandKind::Group(children) => CommandKindV::Group(models_of(children@)),
            },
        }
    }
}

/// The mathematical images of a sequence of commands, in order.
pub open spec fn models_of(cmds: Seq<Command>) -> Seq<CommandV>
    decreases cmds,
{
    if cmds.len() == 0 {
        Seq::<CommandV>::empty()
    } else {
        seq![cmds[0].model()] + models_of(cmds.drop_first())
    }
}

/// `models_of` taken index by index.
pub proof fn lemma_models_of_index(cmds: Seq<Command>)
    ensures
        models_of(cmds).len() == cmds.len(),
        forall|i: int| 0 <= i < cmds.len() ==> models_of(cmds)[i] == #[trigger] cmds[i].model(),
    decreases cmds,
{
    if cmds.len() > 0 {
        lemma_models_of_index(cmds.drop_first());
        assert forall|i: int| 0 <= i < cmds.len() implies models_of(cmds)[i] == #[trigger] cmds[i]
            .model() by {
            if i > 0 {
                assert(cmds.drop_first()[i - 1] == cmds[i]);
            }
        }
    }
}

impl Command {
    /// A deep copy of this command and everything under it.
    #[verifier::loop_isolation(false)]
    pub fn duplicate(&self) -> (r: Command)
        ensures
            r.model() == self.model(),
        decreases *self,
    {
        match &self.kind {
            CommandKind::Leaf(id) => Command {
                name: self.name.clone(),
                desc: self.desc.clone(),
                kind: CommandKind::Leaf(*id),
            },
            CommandKind::Group(children) => {
                let mut copied: Vec<Command> = Vec::new();
                let mut j: usize = 0;
                while j < children.len()
                    invariant
                        j <= children@.len(),
                        copied@.len() == j,
                        forall|k: int|
                            0 <= k < j ==> (#[trigger] copied@[k]).model() == children@[k].model(),
                    decreases children@.len() - j,
                {
                    proof {
                        assert(decreases_to!(*self => self.kind));
                        assert(decreases_to!(self.kind => self.kind->Group_0));
                        assert(decreases_to!(self.kind->Group_0 => self.kind->Group_0@));
                        assert(decreases_to!(self.kind->Group_0@ => self.kind->Group_0@[j as int]));
                    }
                    let c: Command = children[j].duplicate();
                    copied.push(c);
                    j = j + 1;
                }
                proof {
                    lemma_models_of_index(copied@);
                    lemma_models_of_index(children@);
                    assert forall|k: int| 0 <= k < children@.len() implies models_of(copied@)[k]
                        == models_of(children@)[k] by {
                        assert(copied@[k].model() == children@[k].model());
                    }
                    assert(models_of(copied@) =~= models_of(children@));
                }
                Command {
                    name: self.name.clone(),
                    desc: self.desc.clone(),
                    kind: CommandKind::Group(copied),
                }
            },
        }
    }
}

impl CapabilityTree {
    /// A deep copy of the whole snapshot.
    pub fn duplicate(&self) -> (r: CapabilityTree)
        ensures
            r.name@ == self.name@,
            models_of(r.root@) == models_of(self.root@),
    {
        let mut root: Vec<Command> = Vec::new();
        let mut j: usize = 0;
        while j < self.root.len()
            invariant
                j <= self.root@.len(),
                root@.len() == j,
                forall|k: int|
                    0 <= k < j ==> (#[trigger] root@[k]).model() == self.root@[k].model(),
            decreases self.root@.len() - j,
        {
            let c: Command = self.root[j].duplicate();
            root.push(c);
            j = j + 1;
        }
        proof {
            lemma_models_of_index(root@);
            lemma_models_of_index(self.root@);
            assert forall|k: int| 0 <= k < self.root@.len() implies models_of(root@)[k]
                == models_of(self.root@)[k] by {
                assert(root@[k].model() == self.root@[k].model());
            }
            assert(models_of(root@) =~= models_of(self.root@));
        }
        CapabilityTree { name: self.name.clone(), root }
    }
}

/// The case-folded scalar value of a character: ASCII upper-case letters
/// map onto their lower-case counterparts, everything else onto itself.
pub open spec fn fold_char(c: char) -> u32 {
    if 65 <= c as u32 && c as u32 <= 90 {
        (c as u32 + 32) as u32
    } else {
        c as u32
    }
}

/// The case-folded image of a name, character by character.
pub open spec fn fold_name(s: Seq<char>) -> Seq<u32> {
    s.map_values(|c: char| fold_char(c))
}

/// The folded image of the literal token `help`.
pub open spec fn help_key() -> Seq<u32> {
    seq![104u32, 101u32, 108u32, 112u32]
}

/// The (name, description) pairs of one level of commands, in declared
/// order.
pub open spec fn listing_of(cmds: Seq<Command>) -> Seq<(Seq<char>, Seq<char>)> {
    cmds.map_values(|c: Command| (c.name@, c.desc@))
}

/// `n` space characters.
pub open spec fn spaces(n: nat) -> Seq<char>
    decreases n,
{
    if n == 0 {
        Seq::<char>::empty()
    } else {
        spaces((n - 1) as nat).push(' ')
    }
}

/// One listing line: four spaces of indent, the name left-aligned in a
/// column of at least twelve characters, two spaces, the description.
pub open spec fn line_of(name: Seq<char>, desc: Seq<char>) -> Seq<char> {
    seq![' ', ' ', ' ', ' '] + name + spaces(if name.len() < 12 {
        (12 - name.len()) as nat
    } else {
        0
    }) + seq![' ', ' '] + desc
}

/// The formatted lines of a listing, one per entry.
pub open spec fn listing_lines(listing: Seq<(Seq<char>, Seq<char>)>) -> Seq<Seq<char>> {
    listing.map_values(|p: (Seq<char>, Seq<char>)| line_of(p.0, p.1))
}

/// The header line put above every listing.
pub open spec fn commands_header() -> Seq<char> {
    "  Commands:"@
}

/// The case-folded scalar value of one character.
fn fold_char_x(c: char) -> (r: u32)
    ensures
        r == fold_char(c),
{
    let u: u32 = c as u32;
    if 65 <= u && u <= 90 {
        u + 32
    } else {
        u
    }
}

/// Whether two names are the same under case folding.
pub fn names_match(a: &str, b: &str) -> (r: bool)
    ensures
        r == (fold_name(a@) == fold_name(b@)),
{
    let alen: usize = a.unicode_len();
    let blen: usize = b.unicode_len();
    if alen != blen {
        proof {
            assert(fold_name(a@).len() != fold_name(b@).len());
        }
        return false;
    }
    let mut i: usize = 0;
    while i < alen
        invariant
            i <= alen,
            alen == a@.len(),
            alen == b@.len(),
            forall|k: int| 0 <= k < i ==> fold_char(a@[k]) == fold_char(b@[k]),
        decreases alen - i,
    {
        let ca: char = a.get_char(i);
        let cb: char = b.get_char(i);
        if fold_char_x(ca) != fold_char_x(cb) {
            proof {
                assert(fold_name(a@)[i as int] != fold_name(b@)[i as int]);
            }
            return false;
        }
        i = i + 1;
    }
    proof {
        assert(fold_name(a@) =~= fold_name(b@));
    }
    true
}

/// Whether a token names the built-in help command, case-insensitively.
pub fn is_help(token: &str) -> (r: bool)
    ensures
        r == (fold_name(token@) == help_key()),
{
    let r: bool = names_match(token, "help");
    proof {
        reveal_strlit("help");
        assert(fold_name("help"@) =~= help_key());
    }
    r
}

/// One formatted listing line for a name and its description.
pub fn format_list_line(name: &String, desc: &String) -> (r: String)
    ensures
        r@ == line_of(name@, desc@),
{
    let mut line: String = "    ".to_owned();
    proof {
        reveal_strlit("    ");
        assert(line@ =~= seq![' ', ' ', ' ', ' ']);
    }
    line.append(name.as_str());
    let width: usize = name.unicode_len();
    let mut pad: usize = width;
    while pad < 12
        invariant
            width <= pad,
            width == name@.len(),
            width < 12 ==> pad <= 12,
            width >= 12 ==> pad == width,
            line@ == seq![' ', ' ', ' ', ' '] + name@ + spaces((pad - width) as nat),
        decreases 12 - pad,
    {
        line.append(" ");
        pad = pad + 1;
        proof {
            reveal_strlit(" ");
            assert(" "@ =~= seq![' ']);
            assert(spaces((pad - width) as nat) == spaces((pad - 1 - width) as nat).push(' '));
            assert(seq![' ', ' ', ' ', ' '] + name@ + spaces((pad - 1 - width) as nat) + seq![' ']
                =~= seq![' ', ' ', ' ', ' '] + name@ + spaces((pad - width) as nat));
        }
    }
    proof {
        if name@.len() < 12 {
            assert((pad - width) as nat == (12 - name@.len()) as nat);
        } else {
            assert((pad - width) as nat == 0nat);
        }
    }
    line.append("  ");
    line.append(desc.as_str());
    proof {
        reveal_strlit("  ");
        assert("  "@ =~= seq![' ', ' ']);
        assert(line@ =~= line_of(name@, desc@));
    }
    line
}

/// Append one level's listing to the output lines: the header, then one
/// line per command in declared order.
pub fn list_subcommands(cmds: &Vec<Command>, out: &mut Vec<String>)
    ensures
        final(out).deep_view() == old(out).deep_view() + seq![commands_header()] + listing_lines(
            listing_of(cmds@),
        ),
{
    out.push("  Commands:".to_owned());
    proof {
        assert(out.deep_view() =~= old(out).deep_view() + seq![commands_header()] + listing_lines(
            listing_of(cmds@.take(0)),
        ));
    }
    let mut j: usize = 0;
    while j < cmds.len()
        invariant
            j <= cmds@.len(),
            out.deep_view() == old(out).deep_view() + seq![commands_header()] + listing_lines(
                listing_of(cmds@.take(j as int)),
            ),
        decreases cmds@.len() - j,
    {
        let ghost pre = out.deep_view();
        let line: String = format_list_line(&cmds[j].name, &cmds[j].desc);
        out.push(line);
        proof {
            assert(out.deep_view() =~= pre.push(line@));
            assert(listing_lines(listing_of(cmds@.take(j + 1 as int))) =~= listing_lines(
                listing_of(cmds@.take(j as int)),
            ).push(line_of(cmds@[j as int].name@, cmds@[j as int].desc@)));
            assert(out.deep_view() =~= old(out).deep_view() + seq![commands_header()]
                + listing_lines(listing_of(cmds@.take(j + 1 as int))));
        }
        j = j + 1;
    }
    proof {
        assert(cmds@.take(cmds@.len() as int) =~= cmds@);
    }
}

} // verus!
