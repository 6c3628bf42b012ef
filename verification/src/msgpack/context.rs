//! The diagnostic context: a trail of labels that error messages carry along.
//!
//! A decoder pushes a label when it enters a nested item and pops it on the way
//! out. The context decides nothing: it only adds its trail to a message.
use vstd::prelude::*;
use vstd::string::*;

verus! {

/// A trail of labels, the outermost first.
#[derive(Debug)]
pub struct Context {
    nodes: Vec<String>,
}

/// The lines that a trail adds to a message: one for each label, the innermost first.
pub open spec fn trail(nodes: Seq<Seq<char>>) -> Seq<char>
    decreases nodes.len(),
{
    if nodes.len() == 0 {
        Seq::empty()
    } else {
        "\n  at "@ + nodes.last() + trail(nodes.drop_last())
    }
}

/// `message` followed by the trail of `nodes`.
pub open spec fn with_context(nodes: Seq<Seq<char>>, message: Seq<char>) -> Seq<char> {
    message + trail(nodes)
}

impl View for Context {
    type V = Seq<Seq<char>>;

    /// The labels, the outermost first.
    closed spec fn view(&self) -> Seq<Seq<char>> {
        Seq::new(self.nodes@.len(), |i: int| self.nodes@[i]@)
    }
}

impl Context {
    /// A context with no label.
    pub fn new() -> (context: Context)
        ensures
            context@ == Seq::<Seq<char>>::empty(),
    {
        let context = Context { nodes: Vec::new() };
        assert(context@ =~= Seq::<Seq<char>>::empty());
        context
    }

    /// Whether the context has no label.
    pub fn is_empty(&self) -> (empty: bool)
        ensures
            empty == (self@.len() == 0),
    {
        self.nodes.len() == 0
    }

    /// The number of labels.
    pub fn get_length(&self) -> (length: usize)
        ensures
            length == self@.len(),
    {
        self.nodes.len()
    }

    /// Adds `node` as the innermost label.
    pub fn push(&mut self, node: &str)
        ensures
            final(self)@ == old(self)@.push(node@),
    {
        self.nodes.push(String::from_str(node));
        assert(self@ =~= old(self)@.push(node@));
    }

    /// Takes the innermost label off and returns it; `None`, and no change, where
    /// there is no label.
    pub fn pop(&mut self) -> (node: Option<String>)
        ensures
            old(self)@.len() == 0 ==> node is None && final(self)@ == old(self)@,
            old(self)@.len() > 0 ==> node is Some && node->Some_0@ == old(self)@.last()
                && final(self)@ == old(self)@.drop_last(),
    {
        let node = self.nodes.pop();
        assert(old(self)@.len() > 0 ==> self@ =~= old(self)@.drop_last());
        assert(old(self)@.len() == 0 ==> self@ =~= old(self)@);
        node
    }

    /// `message` with one line added for each label, the innermost first.
    pub fn print_with_context(&self, message: &str) -> (text: String)
        ensures
            text@ == with_context(self@, message@),
    {
        let mut text: String = String::from_str(message);
        let mut i: usize = self.nodes.len();
        assert(self@.take(i as int) =~= self@);
        while i > 0
            invariant
                i <= self.nodes.len(),
                self@.len() == self.nodes.len(),
                text@ + trail(self@.take(i as int)) == with_context(self@, message@),
            decreases i,
        {
            let ghost shown = self@.take(i as int);
            i = i - 1;
            text.append("\n  at ");
            text.append(self.nodes[i].as_str());
            proof {
                assert(shown.last() == self.nodes@[i as int]@);
                assert(shown.drop_last() =~= self@.take(i as int));
                assert(text@ + trail(self@.take(i as int)) =~= with_context(self@, message@));
            }
        }
        assert(trail(self@.take(0)) =~= Seq::<char>::empty());
        assert(text@ =~= with_context(self@, message@));
        text
    }
}

impl Clone for Context {
    /// A context with the same labels.
    fn clone(&self) -> (context: Context)
        ensures
            context@ == self@,
    {
        let mut nodes: Vec<String> = Vec::new();
        let mut i: usize = 0;
        while i < self.nodes.len()
            invariant
                i <= self.nodes.len(),
                nodes@.len() == i,
                forall|j: int| 0 <= j < i ==> nodes@[j]@ == self.nodes@[j]@,
            decreases self.nodes.len() - i,
        {
            nodes.push(self.nodes[i].clone());
            i = i + 1;
        }
        let context = Context { nodes };
        assert(context@ =~= self@);
        context
    }
}

impl Default for Context {
    /// A context with no label.
    fn default() -> (context: Context)
        ensures
            context@ == Seq::<Seq<char>>::empty(),
    {
        Context::new()
    }
}

} // verus!
