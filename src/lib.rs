use vstd::prelude::*;

verus! {

/// Holds a reference to text stored elsewhere, which outlives the holder.
pub struct Manager<'b> {
    pub text: &'b str,
}

/// Owns exactly one `Manager`.
pub struct List<'d> {
    pub manager: Manager<'d>,
}

/// A short-lived accessor with exclusive access to a `List`'s `Manager`.
pub struct Interface<'a, 'b> {
    pub manager: &'a mut Manager<'b>,
}

impl<'d1> List<'d1> {
    /// Hands out exclusive access to this list's manager.
    pub fn get_interface<'c1, 'c2>(&'c1 mut self) -> (r: Interface<'c2, 'd1>)
        where 'd1: 'c2, 'c1: 'c2
        ensures
            *r.manager == old(self).manager,
            final(self).manager == *final(r.manager),
    {
        Interface { manager: &mut self.manager }
    }
}

impl<'a, 'b> Interface<'a, 'b> {
    /// Consumes the accessor, giving the manager back untouched, and returns
    /// the diagnostic line that reports it.
    pub fn noop(self) -> (line: &'static str)
        ensures
            line@ == consumed_line(),
            *final(self.manager) == *old(self.manager),
    {
        "interface consumed"
    }
}

/// What `Interface::noop` reports.
pub open spec fn consumed_line() -> Seq<char> {
    "interface consumed"@
}

/// What the driver reports once the accessor is gone.
pub open spec fn released_line() -> Seq<char> {
    "Interface should be dropped here and the borrow released"@
}

/// The lines a run prints, in order, for a manager holding `text`.
pub open spec fn transcript(text: Seq<char>) -> Seq<Seq<char>> {
    seq![consumed_line(), released_line(), text]
}

/// Reads a list through a shared reference: the text its manager holds.
pub fn use_list<'l, 't>(list: &'l List<'t>) -> (text: &'t str)
    ensures
        text@ == list.manager.text@,
{
    list.manager.text
}

/// Builds a list around `text`, takes exclusive access to its manager and
/// consumes it in one expression, then reads the list again.
/// Returns the lines that a run prints, in order.
pub fn run<'t>(text: &'t str) -> (lines: Vec<&'t str>)
    ensures
        lines@.len() == transcript(text@).len(),
        forall|i: int| 0 <= i < lines@.len() ==> #[trigger] lines@[i]@ == transcript(text@)[i],
{
    let mut list = List { manager: Manager { text } };
    let first = list.get_interface().noop();
    let second = "Interface should be dropped here and the borrow released";
    let third = use_list(&list);
    let mut lines: Vec<&'t str> = Vec::new();
    lines.push(first);
    lines.push(second);
    lines.push(third);
    lines
}

/// Changing the manager's text changes the last line of a run and nothing
/// else: runs on any two texts agree on every line but the last, which is
/// the text itself.
pub proof fn lemma_text_changes_only_last_line(t1: Seq<char>, t2: Seq<char>)
    ensures
        transcript(t1).len() == 3,
        transcript(t2).len() == 3,
        transcript(t1).take(2) == transcript(t2).take(2),
        transcript(t1)[2] == t1,
        transcript(t2)[2] == t2,
{
    assert(transcript(t1).take(2) =~= transcript(t2).take(2));
}

} // verus!
