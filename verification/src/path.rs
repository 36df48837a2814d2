//! D-Bus object paths, which name sessions and requests.

use vstd::prelude::*;
use zbus::zvariant::ObjectPath;

verus! {

/// Whether `c` may stand in an element of an object path.
pub open spec fn is_element_char(c: char) -> bool {
    ||| 'a' <= c <= 'z'
    ||| 'A' <= c <= 'Z'
    ||| '0' <= c <= '9'
    ||| c == '_'
}

/// Whether `text` is an object path: a slash, then elements of letters, digits and underscores
/// with one slash between each two.
pub open spec fn is_object_path(text: Seq<char>) -> bool {
    &&& text.len() > 0
    &&& text[0] == '/'
    &&& text.len() > 1 ==> text.last() != '/'
    &&& forall|i: int| 0 <= i < text.len() ==> is_element_char(#[trigger] text[i]) || text[i] == '/'
    &&& forall|i: int, j: int|
        0 <= i < text.len() && j == i + 1 && j < text.len() && #[trigger] text[i] == '/'
            ==> #[trigger] text[j] != '/'
}

/// `ObjectPath::try_from(&str)`: succeeds on the object paths of the D-Bus grammar and on no
/// other text.
#[verifier::external_body]
fn validates(text: &str) -> (r: bool)
    ensures
        r == is_object_path(text@),
{
    ObjectPath::try_from(text).is_ok()
}

/// The object path of a session.
#[derive(Debug, PartialEq, Eq)]
pub struct HandlePath {
    text: String,
}

impl View for HandlePath {
    type V = Seq<char>;

    closed spec fn view(&self) -> Seq<char> {
        self.text@
    }
}

impl Clone for HandlePath {
    fn clone(&self) -> (r: Self)
        ensures
            r == *self,
    {
        proof {
            use_type_invariant(self);
        }
        HandlePath { text: self.text.clone() }
    }
}

impl HandlePath {
    #[verifier::type_invariant]
    spec fn wf(self) -> bool {
        is_object_path(self.text@)
    }

    /// The path that `text` writes; `None` where it writes none.
    pub fn parse(text: String) -> (r: Option<Self>)
        ensures
            r is Some <==> is_object_path(text@),
            r matches Some(path) ==> path@ == text@,
    {
        if validates(text.as_str()) {
            Some(HandlePath { text })
        } else {
            None
        }
    }

    /// The text of the path.
    pub fn as_str(&self) -> (r: &str)
        ensures
            r@ == self@,
            is_object_path(r@),
    {
        proof {
            use_type_invariant(self);
        }
        self.text.as_str()
    }

    /// The text of the path, owned.
    pub fn to_text(&self) -> (r: String)
        ensures
            r@ == self@,
            is_object_path(r@),
    {
        proof {
            use_type_invariant(self);
        }
        self.text.clone()
    }
}

} // verus!
