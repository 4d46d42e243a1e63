//! The path stack: the qualified names of the elements that are open, from
//! the document root to the current element.

use vstd::prelude::*;

use crate::event::{QName, QNameView};
use crate::model::{XmlData, XmlDataView};

verus! {

/// A qualified name as it stands in a path: `prefix:local`, or `local` where
/// the name has no prefix.
pub open spec fn qualified(name: QNameView) -> Seq<char> {
    match name.prefix {
        Some(prefix) => prefix + seq![':'] + name.local_name,
        None => name.local_name,
    }
}

/// A path as one string: every segment preceded by `/`, outermost first.
/// The empty path renders as the empty string.
pub open spec fn rendered(path: Seq<Seq<char>>) -> Seq<char>
    decreases path.len(),
{
    if path.len() == 0 {
        Seq::empty()
    } else {
        rendered(path.drop_last()) + seq!['/'] + path.last()
    }
}

impl XmlDataView {
    /// The record after an element named `name` opened.
    pub open spec fn opened(self, name: QNameView) -> XmlDataView {
        XmlDataView { current_path: self.current_path.push(qualified(name)), ..self }
    }

    /// The record after the innermost open element closed.
    pub open spec fn closed(self) -> XmlDataView {
        XmlDataView { current_path: self.current_path.drop_last(), ..self }
    }

    /// The current path as one string.
    pub open spec fn path(self) -> Seq<char> {
        rendered(self.current_path)
    }
}

/// Renders a qualified name.
pub fn to_prefixed_name(name: &QName) -> (r: String)
    ensures
        r@ == qualified(name@),
{
    match &name.prefix {
        Some(prefix) => {
            let mut r = prefix.clone();
            r.append(":");
            r.append(name.local_name.as_str());
            proof {
                reveal_strlit(":");
            }
            r
        },
        None => name.local_name.clone(),
    }
}

impl XmlData {
    /// Enters an element: appends its qualified name to the path.
    pub fn push_path(&mut self, name: &QName)
        ensures
            final(self)@ == old(self)@.opened(name@),
    {
        let segment = to_prefixed_name(name);
        self.current_path.push(segment);
    }

    /// Leaves the innermost open element: removes the last segment of the
    /// path. There must be an open element.
    pub fn pop_path(&mut self)
        requires
            old(self)@.current_path.len() > 0,
        ensures
            final(self)@ == old(self)@.closed(),
    {
        self.current_path.pop();
    }

    /// The number of elements that are open.
    pub fn depth(&self) -> (d: usize)
        ensures
            d == self@.current_path.len(),
    {
        self.current_path.len()
    }

    /// The current path as one string, such as `/Invoice/cbc:ID`.
    pub fn path(&self) -> (r: String)
        ensures
            r@ == self@.path(),
    {
        let mut r = String::new();
        let mut i: usize = 0;
        while i < self.current_path.len()
            invariant
                i <= self.current_path.len(),
                r@ == rendered(self.current_path.deep_view().take(i as int)),
            decreases self.current_path.len() - i,
        {
            r.append("/");
            r.append(self.current_path[i].as_str());
            proof {
                reveal_strlit("/");
                let segments = self.current_path.deep_view();
                assert(segments.take(i + 1).drop_last() =~= segments.take(i as int));
            }
            i = i + 1;
        }
        proof {
            let segments = self.current_path.deep_view();
            assert(segments.take(i as int) =~= segments);
        }
        r
    }
}

} // verus!
