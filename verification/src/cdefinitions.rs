//! The C-text registry: collects, once per type, the typedef block and the
//! required standard headers for types that cross a C boundary, and renders
//! them as one header text.
//!
//! Insertion is keyed by the type's fully qualified name; inserting under a
//! key that is already present changes nothing.

use vstd::prelude::*;
use vstd::string::StringExecFns;

use crate::layout::str_eq;

verus! {

/// Deep view of a list of strings.
pub open spec fn strings_deep(s: Seq<String>) -> Seq<Seq<char>> {
    Seq::new(
        s.len(),
        |i: int|
            if 0 <= i < s.len() {
                s[i]@
            } else {
                Seq::empty()
            },
    )
}

/// Deep view of a list of key/definition pairs.
pub open spec fn entries_deep(s: Seq<(String, String)>) -> Seq<(Seq<char>, Seq<char>)> {
    Seq::new(
        s.len(),
        |i: int|
            if 0 <= i < s.len() {
                (s[i].0@, s[i].1@)
            } else {
                (Seq::empty(), Seq::empty())
            },
    )
}

/// Whether some entry carries the key.
pub open spec fn has_key(ts: Seq<(Seq<char>, Seq<char>)>, key: Seq<char>) -> bool {
    exists|i: int| 0 <= i < ts.len() && (#[trigger] ts[i]).0 == key
}

/// Whether the sequence contains the string.
pub open spec fn has_string(ss: Seq<Seq<char>>, x: Seq<char>) -> bool {
    exists|i: int| 0 <= i < ss.len() && #[trigger] ss[i] == x
}

/// One rendered include line.
pub open spec fn spec_include_line(inc: Seq<char>) -> Seq<char> {
    "#include <"@ + inc + ">\n"@
}

/// The rendered include lines, in insertion order.
pub open spec fn spec_render_includes(incs: Seq<Seq<char>>) -> Seq<char>
    decreases incs.len(),
{
    if incs.len() == 0 {
        Seq::empty()
    } else {
        spec_render_includes(incs.drop_last()) + spec_include_line(incs.last())
    }
}

/// The rendered definitions, in insertion order, one line each.
pub open spec fn spec_render_types(ts: Seq<(Seq<char>, Seq<char>)>) -> Seq<char>
    decreases ts.len(),
{
    if ts.len() == 0 {
        Seq::empty()
    } else {
        spec_render_types(ts.drop_last()) + ts.last().1 + "\n"@
    }
}

/// The registry of collected headers and typedefs.
#[derive(Debug)]
pub struct CDefinitions {
    includes: Vec<String>,
    types: Vec<(String, String)>,
}

impl CDefinitions {
    /// The collected headers, in insertion order.
    pub closed spec fn spec_includes(&self) -> Seq<Seq<char>> {
        strings_deep(self.includes@)
    }

    /// The collected (type name, definition) pairs, in insertion order.
    pub closed spec fn spec_types(&self) -> Seq<(Seq<char>, Seq<char>)> {
        entries_deep(self.types@)
    }

    /// Each header and each type name appears at most once.
    pub open spec fn wf(&self) -> bool {
        &&& forall|i: int, j: int|
            0 <= i < j < self.spec_includes().len() ==> self.spec_includes()[i]
                != self.spec_includes()[j]
        &&& forall|i: int, j: int|
            0 <= i < j < self.spec_types().len() ==> (#[trigger] self.spec_types()[i]).0 != (
            #[trigger] self.spec_types()[j]).0
    }

    /// An empty registry.
    pub fn new() -> (r: Self)
        ensures
            r.spec_includes() == Seq::<Seq<char>>::empty(),
            r.spec_types() == Seq::<(Seq<char>, Seq<char>)>::empty(),
            r.wf(),
    {
        let r = CDefinitions { includes: Vec::new(), types: Vec::new() };
        proof {
            assert(r.spec_includes() =~= Seq::<Seq<char>>::empty());
            assert(r.spec_types() =~= Seq::<(Seq<char>, Seq<char>)>::empty());
        }
        r
    }

    /// Whether a definition was already inserted under `key`.
    pub fn contains_type(&self, key: &str) -> (r: bool)
        ensures
            r == has_key(self.spec_types(), key@),
    {
        let n = self.types.len();
        let mut i: usize = 0;
        while i < n
            invariant
                0 <= i <= n,
                n == self.types@.len(),
                forall|j: int| 0 <= j < i ==> (#[trigger] self.spec_types()[j]).0 != key@,
            decreases n - i,
        {
            if str_eq(self.types[i].0.as_str(), key) {
                proof {
                    assert(self.spec_types()[i as int].0 == key@);
                }
                return true;
            }
            proof {
                assert(self.spec_types()[i as int].0 == self.types@[i as int].0@);
            }
            i += 1;
        }
        false
    }

    /// Whether a header was already added.
    pub fn contains_include(&self, header: &str) -> (r: bool)
        ensures
            r == has_string(self.spec_includes(), header@),
    {
        let n = self.includes.len();
        let mut i: usize = 0;
        while i < n
            invariant
                0 <= i <= n,
                n == self.includes@.len(),
                forall|j: int| 0 <= j < i ==> #[trigger] self.spec_includes()[j] != header@,
            decreases n - i,
        {
            if str_eq(self.includes[i].as_str(), header) {
                proof {
                    assert(self.spec_includes()[i as int] == header@);
                }
                return true;
            }
            proof {
                assert(self.spec_includes()[i as int] == self.includes@[i as int]@);
            }
            i += 1;
        }
        false
    }

    /// Adds a required header, once: a header already present is not added
    /// again.
    pub fn add_include(&mut self, header: String)
        requires
            old(self).wf(),
        ensures
            final(self).wf(),
            final(self).spec_types() == old(self).spec_types(),
            final(self).spec_includes() == if has_string(
                old(self).spec_includes(),
                header@,
            ) {
                old(self).spec_includes()
            } else {
                old(self).spec_includes().push(header@)
            },
    {
        if !self.contains_include(header.as_str()) {
            let ghost before = self.spec_includes();
            let ghost hv = header@;
            self.includes.push(header);
            proof {
                assert(self.spec_includes() =~= before.push(hv));
                assert(self.spec_types() =~= old(self).spec_types());
            }
        }
    }

    /// Inserts a definition under a type's name, once: a key already present
    /// keeps its first definition.
    pub fn insert_type(&mut self, key: String, definition: String)
        requires
            old(self).wf(),
        ensures
            final(self).wf(),
            final(self).spec_includes() == old(self).spec_includes(),
            final(self).spec_types() == if has_key(old(self).spec_types(), key@) {
                old(self).spec_types()
            } else {
                old(self).spec_types().push((key@, definition@))
            },
    {
        if !self.contains_type(key.as_str()) {
            let ghost before = self.spec_types();
            let ghost kv = key@;
            let ghost dv = definition@;
            self.types.push((key, definition));
            proof {
                assert(self.spec_types() =~= before.push((kv, dv)));
                assert(self.spec_includes() =~= old(self).spec_includes());
            }
        }
    }

    /// Renders the collected text: every include line, then every
    /// definition, each in insertion order.
    pub fn render(self) -> (r: String)
        ensures
            r@ == spec_render_includes(self.spec_includes()) + spec_render_types(
                self.spec_types(),
            ),
    {
        let mut result = String::new();
        let n = self.includes.len();
        let mut i: usize = 0;
        while i < n
            invariant
                0 <= i <= n,
                n == self.includes@.len(),
                result@ == spec_render_includes(self.spec_includes().take(i as int)),
            decreases n - i,
        {
            result.append("#include <");
            result.append(self.includes[i].as_str());
            result.append(">\n");
            proof {
                let taken = self.spec_includes().take(i + 1);
                assert(taken.drop_last() =~= self.spec_includes().take(i as int));
                assert(taken.last() == self.includes@[i as int]@);
            }
            i += 1;
        }
        proof {
            assert(self.spec_includes().take(n as int) =~= self.spec_includes());
        }
        let m = self.types.len();
        let mut k: usize = 0;
        while k < m
            invariant
                0 <= k <= m,
                m == self.types@.len(),
                result@ == spec_render_includes(self.spec_includes()) + spec_render_types(
                    self.spec_types().take(k as int),
                ),
            decreases m - k,
        {
            result.append(self.types[k].1.as_str());
            result.append("\n");
            proof {
                let taken = self.spec_types().take(k + 1);
                assert(taken.drop_last() =~= self.spec_types().take(k as int));
                assert(taken.last().1 == self.types@[k as int].1@);
            }
            k += 1;
        }
        proof {
            assert(self.spec_types().take(m as int) =~= self.spec_types());
        }
        result
    }

    /// Runs a type's registration unless a definition is already present
    /// under its name. Afterwards the type's definition is registered under
    /// its name and its required header collected, each exactly once.
    pub fn extend_once<T: CType>(&mut self)
        requires
            old(self).wf(),
        ensures
            final(self).wf(),
            has_key(final(self).spec_types(), T::spec_type_key()),
            final(self).spec_types() == if has_key(
                old(self).spec_types(),
                T::spec_type_key(),
            ) {
                old(self).spec_types()
            } else {
                old(self).spec_types().push((T::spec_type_key(), T::spec_definition()))
            },
            final(self).spec_includes() == if has_key(old(self).spec_types(), T::spec_type_key())
                || has_string(old(self).spec_includes(), T::spec_required_header()) {
                old(self).spec_includes()
            } else {
                old(self).spec_includes().push(T::spec_required_header())
            },
    {
        let key = T::type_key();
        if !self.contains_type(key.as_str()) {
            T::definitions(self);
        }
        proof {
            let ts = self.spec_types();
            if ts.len() > 0 && ts[ts.len() - 1].0 == T::spec_type_key() {
                assert(has_key(ts, T::spec_type_key()));
            }
        }
    }
}

/// A type that can register its C typedef text. Implementations supply the
/// type's unique name, its definition text, the standard header it needs,
/// and the registration that inserts them.
pub trait CType {
    /// The key under which the definition is registered: the type's fully
    /// qualified name.
    spec fn spec_type_key() -> Seq<char>;

    /// The typedef text registered under the key.
    spec fn spec_definition() -> Seq<char>;

    /// The standard header the definition needs.
    spec fn spec_required_header() -> Seq<char>;

    fn type_key() -> (r: String)
        ensures
            r@ == Self::spec_type_key(),
    ;

    /// Registers this type's required header and its definition, each once:
    /// one already present is not added again.
    fn definitions(defs: &mut CDefinitions)
        requires
            old(defs).wf(),
        ensures
            final(defs).wf(),
            final(defs).spec_includes() == if has_string(
                old(defs).spec_includes(),
                Self::spec_required_header(),
            ) {
                old(defs).spec_includes()
            } else {
                old(defs).spec_includes().push(Self::spec_required_header())
            },
            final(defs).spec_types() == if has_key(
                old(defs).spec_types(),
                Self::spec_type_key(),
            ) {
                old(defs).spec_types()
            } else {
                old(defs).spec_types().push((Self::spec_type_key(), Self::spec_definition()))
            },
    ;
}

impl CType for u8 {
    open spec fn spec_type_key() -> Seq<char> {
        "uint8_t"@
    }

    open spec fn spec_definition() -> Seq<char> {
        "typedef uint8_t u8;"@
    }

    open spec fn spec_required_header() -> Seq<char> {
        "stdint.h"@
    }

    fn type_key() -> (r: String) {
        "uint8_t".to_owned()
    }

    fn definitions(defs: &mut CDefinitions) {
        defs.add_include("stdint.h".to_owned());
        defs.insert_type("uint8_t".to_owned(), "typedef uint8_t u8;".to_owned());
    }
}

impl CType for u32 {
    open spec fn spec_type_key() -> Seq<char> {
        "uint32_t"@
    }

    open spec fn spec_definition() -> Seq<char> {
        "typedef uint32_t u32;"@
    }

    open spec fn spec_required_header() -> Seq<char> {
        "stdint.h"@
    }

    fn type_key() -> (r: String) {
        "uint32_t".to_owned()
    }

    fn definitions(defs: &mut CDefinitions) {
        defs.add_include("stdint.h".to_owned());
        defs.insert_type("uint32_t".to_owned(), "typedef uint32_t u32;".to_owned());
    }
}

} // verus!
