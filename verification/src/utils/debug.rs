//! Switches for looking into a running game, set by words on the command line.

use vstd::prelude::*;

verus! {

/// What to show or change while the game is looked into.
#[derive(Clone, Copy, Debug, PartialEq, Eq)]
pub struct DebugFlags {
    pub paths: bool,
    pub boss: bool,
    pub centres: bool,
    pub horses: bool,
    pub special: bool,
    pub bloom: bool,
    pub uncapped: bool,
    pub fps: bool,
    pub unscaled: bool,
}

/// Whether `word` is among `args`.
pub open spec fn has_word(args: Seq<String>, word: Seq<char>) -> bool {
    exists|i: int| 0 <= i < args.len() && (#[trigger] args[i])@ == word
}

/// Tells whether `word` is among `args`.
pub fn contains_word(args: &Vec<String>, word: &str) -> (r: bool)
    ensures
        r == has_word(args@, word@),
{
    let wanted: String = word.to_owned();
    let mut i: usize = 0;
    while i < args.len()
        invariant
            0 <= i <= args@.len(),
            wanted@ == word@,
            forall|k: int| 0 <= k < i ==> (#[trigger] args@[k])@ != word@,
        decreases args@.len() - i,
    {
        if args[i] == wanted {
            return true;
        }
        i = i + 1;
    }
    false
}

impl DebugFlags {
    /// No switch set.
    pub open spec fn spec_none() -> DebugFlags {
        DebugFlags {
            paths: false,
            boss: false,
            centres: false,
            horses: false,
            special: false,
            bloom: false,
            uncapped: false,
            fps: false,
            unscaled: false,
        }
    }

    /// The switches that the words of a command line set: each switch by
    /// its own name, the centres by either spelling of the singular.
    pub open spec fn spec_from_args(args: Seq<String>) -> DebugFlags {
        DebugFlags {
            paths: has_word(args, "paths"@),
            boss: has_word(args, "boss"@),
            centres: has_word(args, "centre"@) || has_word(args, "center"@),
            horses: has_word(args, "horses"@),
            special: has_word(args, "special"@),
            bloom: has_word(args, "bloom"@),
            uncapped: has_word(args, "uncapped"@),
            fps: has_word(args, "fps"@),
            unscaled: has_word(args, "unscaled"@),
        }
    }

    /// Reads the switches off the words of a command line.
    pub fn from_args(args: &Vec<String>) -> (r: DebugFlags)
        ensures
            r == Self::spec_from_args(args@),
    {
        DebugFlags {
            paths: contains_word(args, "paths"),
            boss: contains_word(args, "boss"),
            centres: contains_word(args, "centre") || contains_word(args, "center"),
            horses: contains_word(args, "horses"),
            special: contains_word(args, "special"),
            bloom: contains_word(args, "bloom"),
            uncapped: contains_word(args, "uncapped"),
            fps: contains_word(args, "fps"),
            unscaled: contains_word(args, "unscaled"),
        }
    }

    /// The names of the switches that are set, in the order of the fields.
    pub open spec fn spec_names(&self) -> Seq<&'static str> {
        named(self.paths, "paths") + named(self.boss, "boss") + named(self.centres, "centres") + named(
            self.horses,
            "horses",
        ) + named(self.special, "special") + named(self.bloom, "bloom") + named(self.uncapped, "uncapped") + named(
            self.fps,
            "fps",
        ) + named(self.unscaled, "unscaled")
    }

    /// Lists the names of the switches that are set.
    pub fn names(&self) -> (r: Vec<&'static str>)
        ensures
            r@ == self.spec_names(),
    {
        let mut names: Vec<&'static str> = Vec::new();
        note(&mut names, self.paths, "paths");
        assert(names@ =~= named(self.paths, "paths"));
        note(&mut names, self.boss, "boss");
        note(&mut names, self.centres, "centres");
        note(&mut names, self.horses, "horses");
        note(&mut names, self.special, "special");
        note(&mut names, self.bloom, "bloom");
        note(&mut names, self.uncapped, "uncapped");
        note(&mut names, self.fps, "fps");
        note(&mut names, self.unscaled, "unscaled");
        names
    }
}

fn note(names: &mut Vec<&'static str>, set: bool, name: &'static str)
    ensures
        final(names)@ == old(names)@ + named(set, name),
{
    if set {
        names.push(name);
        assert(names@ =~= old(names)@ + named(set, name));
    } else {
        assert(names@ =~= old(names)@ + named(set, name));
    }
}

/// The name of a switch, if the switch is set.
pub open spec fn named(set: bool, name: &'static str) -> Seq<&'static str> {
    if set {
        seq![name]
    } else {
        Seq::empty()
    }
}

impl Default for DebugFlags {
    fn default() -> (r: DebugFlags)
        ensures
            r == DebugFlags::spec_none(),
    {
        DebugFlags {
            paths: false,
            boss: false,
            centres: false,
            horses: false,
            special: false,
            bloom: false,
            uncapped: false,
            fps: false,
            unscaled: false,
        }
    }
}

} // verus!
