//! A platform-portable stand-in for an OS path string.
//!
//! Paths cross the wire between the agent and its browser client, so they are
//! carried in a form that records which platform produced them: the raw OS
//! bytes (or wide characters) together with a lossy textual rendering.

use vstd::prelude::*;

verus! {

/// The mathematical value of a [`PortableOsString`]: the same three shapes,
/// with sequences in place of the executable containers.
#[verifier::ext_equal]
pub enum OsStrView {
    Undifferentiated { text: Seq<char> },
    Unix { data: Seq<u8>, text: Seq<char> },
    Windows { data: Seq<u16>, text: Seq<char> },
}

impl OsStrView {
    /// The lossy textual rendering, whatever the platform shape.
    pub open spec fn lossy_text(self) -> Seq<char> {
        match self {
            OsStrView::Undifferentiated { text } => text,
            OsStrView::Unix { text, .. } => text,
            OsStrView::Windows { text, .. } => text,
        }
    }
}

/// An OS string as exchanged with clients: either plain text, or the native
/// encoding of one platform paired with its lossy text rendering.
#[derive(Debug)]
pub enum PortableOsString {
    Undifferentiated(String),
    Unix { data: Vec<u8>, text: String },
    Windows { data: Vec<u16>, text: String },
}

impl View for PortableOsString {
    type V = OsStrView;

    open spec fn view(&self) -> OsStrView {
        match self {
            PortableOsString::Undifferentiated(s) => OsStrView::Undifferentiated { text: s@ },
            PortableOsString::Unix { data, text } => OsStrView::Unix {
                data: data@,
                text: text@,
            },
            PortableOsString::Windows { data, text } => OsStrView::Windows {
                data: data@,
                text: text@,
            },
        }
    }
}

impl PortableOsString {
    pub fn to_str_lossy(&self) -> (r: &str)
        ensures
            r@ == self@.lossy_text(),
    {
        match self {
            Self::Undifferentiated(s) => s.as_str(),
            Self::Unix { text, .. } => text.as_str(),
            Self::Windows { text, .. } => text.as_str(),
        }
    }

    pub fn to_string_lossy(&self) -> (r: String)
        ensures
            r@ == self@.lossy_text(),
    {
        self.to_str_lossy().to_owned()
    }
}

impl Clone for PortableOsString {
    fn clone(&self) -> (res: Self)
        ensures
            res@ == self@,
    {
        match self {
            Self::Undifferentiated(s) => Self::Undifferentiated(s.clone()),
            Self::Unix { data, text } => {
                let d = data.clone();
                proof {
                    assert(d@ =~= data@);
                }
                Self::Unix { data: d, text: text.clone() }
            }
            Self::Windows { data, text } => {
                let d = data.clone();
                proof {
                    assert(d@ =~= data@);
                }
                Self::Windows { data: d, text: text.clone() }
            }
        }
    }
}

impl PartialEq for PortableOsString {
    fn eq(&self, other: &Self) -> (r: bool) {
        match (self, other) {
            (Self::Undifferentiated(a), Self::Undifferentiated(b)) => *a == *b,
            (
                Self::Unix { data: d1, text: t1 },
                Self::Unix { data: d2, text: t2 },
            ) => {
                let r = *d1 == *d2 && *t1 == *t2;
                proof {
                    if r {
                        assert(d1@ =~= d2@);
                        assert(self@ =~= other@);
                    } else {
                        if self@ == other@ {
                            assert(d1@ == d2@ && t1@ == t2@);
                            assert(false);
                        }
                    }
                }
                r
            }
            (
                Self::Windows { data: d1, text: t1 },
                Self::Windows { data: d2, text: t2 },
            ) => {
                let r = *d1 == *d2 && *t1 == *t2;
                proof {
                    if r {
                        assert(d1@ =~= d2@);
                        assert(self@ =~= other@);
                    } else {
                        if self@ == other@ {
                            assert(d1@ == d2@ && t1@ == t2@);
                            assert(false);
                        }
                    }
                }
                r
            }
            _ => false,
        }
    }
}

impl Eq for PortableOsString {
}

impl vstd::std_specs::cmp::PartialEqSpecImpl for PortableOsString {
    open spec fn obeys_eq_spec() -> bool {
        true
    }

    open spec fn eq_spec(&self, other: &Self) -> bool {
        self@ == other@
    }
}

impl From<String> for PortableOsString {
    fn from(s: String) -> (r: Self) {
        Self::Undifferentiated(s)
    }
}

impl vstd::std_specs::convert::FromSpecImpl<String> for PortableOsString {
    open spec fn obeys_from_spec() -> bool {
        true
    }

    open spec fn from_spec(s: String) -> Self {
        PortableOsString::Undifferentiated(s)
    }
}

} // verus!
