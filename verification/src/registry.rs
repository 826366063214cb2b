//! The command registry: the mapping the host application uses to dispatch
//! named requests from its UI layer to native-side operations.

use vstd::prelude::*;

verus! {

/// The native-side operation a registered command dispatches to.
#[derive(Clone, Copy, PartialEq, Eq, Structural, Debug)]
pub enum Operation {
    /// Request the system character/emoji picker panel.
    OpenCharacterPicker,
}

/// One named command together with the operation it invokes.
pub struct CommandEntry {
    pub name: String,
    pub operation: Operation,
}

impl View for CommandEntry {
    type V = (Seq<char>, Operation);

    open spec fn view(&self) -> (Seq<char>, Operation) {
        (self.name@, self.operation)
    }
}

/// What a name resolves to in a list of command entries: the operation of the
/// first entry carrying that name, if there is one.
pub open spec fn lookup_in(entries: Seq<(Seq<char>, Operation)>, name: Seq<char>) -> Option<
    Operation,
>
    decreases entries.len(),
{
    if entries.len() == 0 {
        None
    } else if entries[0].0 == name {
        Some(entries[0].1)
    } else {
        lookup_in(entries.drop_first(), name)
    }
}

/// A mapping from command names to operations, populated once during
/// bootstrap and immutable thereafter.
pub struct CommandRegistry {
    entries: Vec<CommandEntry>,
}

impl View for CommandRegistry {
    type V = Seq<(Seq<char>, Operation)>;

    closed spec fn view(&self) -> Seq<(Seq<char>, Operation)> {
        self.entries@.map_values(|e: CommandEntry| e@)
    }
}

impl CommandRegistry {
    /// An empty registry: no command resolves yet.
    pub fn new() -> (r: CommandRegistry)
        ensures
            r@ == Seq::<(Seq<char>, Operation)>::empty(),
    {
        let r = CommandRegistry { entries: Vec::new() };
        proof {
            assert(r@ =~= Seq::<(Seq<char>, Operation)>::empty());
        }
        r
    }

    /// Appends one named command.
    pub fn register(&mut self, name: String, operation: Operation)
        ensures
            final(self)@ == old(self)@.push((name@, operation)),
    {
        let ghost n = name@;
        self.entries.push(CommandEntry { name, operation });
        proof {
            assert(self@ =~= old(self)@.push((n, operation)));
        }
    }

    /// How many commands are registered.
    pub fn len(&self) -> (n: usize)
        ensures
            n == self@.len(),
    {
        self.entries.len()
    }

    /// Resolves a command name to its operation, as the host's dispatch
    /// mechanism does when the UI layer invokes a command.
    pub fn lookup(&self, name: &String) -> (r: Option<Operation>)
        ensures
            r == lookup_in(self@, name@),
    {
        let mut i: usize = 0;
        proof {
            assert(self@.skip(0) =~= self@);
        }
        while i < self.entries.len()
            invariant
                0 <= i <= self.entries.len(),
                self@.len() == self.entries@.len(),
                lookup_in(self@, name@) == lookup_in(self@.skip(i as int), name@),
            decreases self.entries.len() - i,
        {
            proof {
                assert(self@.skip(i as int)[0] == self@[i as int]);
            }
            if self.entries[i].name == *name {
                return Some(self.entries[i].operation);
            }
            proof {
                assert(self@.skip(i as int).drop_first() =~= self@.skip(i as int + 1));
            }
            i += 1;
        }
        proof {
            assert(self@.skip(i as int) =~= Seq::<(Seq<char>, Operation)>::empty());
        }
        None
    }
}

} // verus!
