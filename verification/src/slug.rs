//! Slug and path operations.

use crate::text::{
    byte_offset, char_is_whitespace, char_width, chars_of, decimal, is_whitespace, last_index_of,
    lemma_byte_offset_step, push_decimal, push_range, rfind_char,
};
use vstd::prelude::*;
use vstd::utf8::*;

verus! {

/// What went wrong when converting to a slug.
#[derive(Clone, Copy, Debug, PartialEq, Eq, Structural)]
pub enum ConvertErrorKind {
    /// A character that a slug cannot hold where it stands.
    InvalidChar(char),
    /// Nothing is left once the slashes at the edges are set aside.
    Empty,
}

/// Error for converting to a slug.
#[derive(Clone, Copy, Debug, PartialEq, Eq, Structural)]
pub struct ConvertError {
    position: usize,
    kind: ConvertErrorKind,
}

impl ConvertError {
    /// The byte offset of the offending character.
    pub closed spec fn spec_position(&self) -> usize {
        self.position
    }

    /// The kind of the error.
    pub closed spec fn spec_kind(&self) -> ConvertErrorKind {
        self.kind
    }

    /// The byte offset of the offending character; zero for an empty slug.
    #[verifier::when_used_as_spec(spec_position)]
    pub fn position(&self) -> (r: usize)
        ensures
            r == self.spec_position(),
    {
        self.position
    }

    /// The kind of the error.
    #[verifier::when_used_as_spec(spec_kind)]
    pub fn kind(&self) -> (r: ConvertErrorKind)
        ensures
            r == self.spec_kind(),
    {
        self.kind
    }

    /// Says what went wrong, with the column of the offending character
    /// counted from one.
    pub fn message(&self) -> (r: String)
        ensures
            r@ == error_message(self.position(), self.kind()),
    {
        match self.kind {
            ConvertErrorKind::InvalidChar(ch) => {
                let mut out = "invalid char '".to_owned();
                out.push(ch);
                out.append("' @ col ");
                let col: u128 = self.position as u128 + 1;
                push_decimal(&mut out, col);
                out
            },
            ConvertErrorKind::Empty => "slug is empty".to_owned(),
        }
    }
}

/// What is said of an error.
pub open spec fn error_message(position: usize, kind: ConvertErrorKind) -> Seq<char> {
    match kind {
        ConvertErrorKind::InvalidChar(ch) => "invalid char '"@.push(ch) + "' @ col "@ + decimal(
            (position + 1) as nat,
        ),
        ConvertErrorKind::Empty => "slug is empty"@,
    }
}

/// A slug may hold every character but whitespace.
pub open spec fn valid_char(ch: char) -> bool {
    !is_whitespace(ch)
}

/// Whether a slug may hold `ch`.
pub fn is_valid_char(ch: char) -> (r: bool)
    ensures
        r == valid_char(ch),
{
    !char_is_whitespace(ch)
}

/// `s` without one leading and one trailing slash.
pub open spec fn trim_slashes(s: Seq<char>) -> Seq<char> {
    let a = if s.len() > 0 && s[0] == '/' {
        s.skip(1)
    } else {
        s
    };
    if a.len() > 0 && a.last() == '/' {
        a.drop_last()
    } else {
        a
    }
}

/// The character at `i` cannot stand there: it is whitespace, or an
/// underscore that follows another.
pub open spec fn offends(s: Seq<char>, i: int) -> bool {
    !valid_char(s[i]) || (s[i] == '_' && i > 0 && s[i - 1] == '_')
}

/// No character of `s` before index `n` offends.
pub open spec fn clean_before(s: Seq<char>, n: int) -> bool {
    forall|i: int| 0 <= i < n ==> !offends(s, i)
}

/// The strings that a slug can hold.
pub open spec fn well_formed(s: Seq<char>) -> bool {
    &&& trim_slashes(s).len() > 0
    &&& s[0] != '_'
    &&& s.last() != '_'
    &&& clean_before(s, s.len() as int)
}

/// The index of the first character at or after `from` that offends, or
/// the length of `s` where there is none.
pub open spec fn first_offender(s: Seq<char>, from: int) -> int
    decreases s.len() - from,
{
    if from < 0 || from >= s.len() {
        s.len() as int
    } else if offends(s, from) {
        from
    } else {
        first_offender(s, from + 1)
    }
}

/// Why `s` cannot be a slug, as the byte offset and the kind of the error:
/// an empty slug first, then an underscore at the front, then one at the
/// back, then the first offending character. `None` where `s` is accepted.
pub open spec fn rejection(s: Seq<char>) -> Option<(int, ConvertErrorKind)> {
    if trim_slashes(s).len() == 0 {
        Some((0, ConvertErrorKind::Empty))
    } else if s[0] == '_' {
        Some((0, ConvertErrorKind::InvalidChar('_')))
    } else if s.last() == '_' {
        Some((encode_utf8(s).len() - 1, ConvertErrorKind::InvalidChar('_')))
    } else {
        let i = first_offender(s, 0);
        if i < s.len() {
            Some((byte_offset(s, i) as int, ConvertErrorKind::InvalidChar(s[i])))
        } else {
            None
        }
    }
}

/// `first_offender` finds the least offending index.
pub proof fn lemma_first_offender(s: Seq<char>, from: int)
    requires
        0 <= from <= s.len(),
    ensures
        from <= first_offender(s, from) <= s.len(),
        forall|i: int| from <= i < first_offender(s, from) ==> !offends(s, i),
        first_offender(s, from) < s.len() ==> offends(s, first_offender(s, from)),
    decreases s.len() - from,
{
    if from < s.len() && !offends(s, from) {
        lemma_first_offender(s, from + 1);
    }
}

/// A string is accepted exactly when it is well formed.
pub proof fn lemma_rejection_well_formed(s: Seq<char>)
    ensures
        rejection(s) is None <==> well_formed(s),
{
    lemma_first_offender(s, 0);
}

/// A string that holds no whitespace, no underscore at either end and no
/// two underscores in a row is a slug, unless nothing but edge slashes is in
/// it.
pub proof fn lemma_clean_string_is_accepted(s: Seq<char>)
    requires
        forall|i: int| 0 <= i < s.len() ==> !is_whitespace(s[i]),
        s.len() > 0 ==> s[0] != '_' && s.last() != '_',
        forall|i: int| 0 < i < s.len() ==> !(s[i - 1] == '_' && #[trigger] s[i] == '_'),
        trim_slashes(s).len() > 0,
    ensures
        rejection(s) is None,
{
    lemma_rejection_well_formed(s);
}

/// A slug.
///
/// A slug is a path of a wiki page fit to display in URLs comfortably. It
/// holds no whitespace, is not empty, neither begins nor ends with an
/// underscore and holds no two underscores in a row.
///
/// A slug may carry one leading and one trailing slash. They are kept, and
/// ignored by every comparison: the view of a slug is the string without
/// them.
#[derive(Debug)]
pub struct Slug(String);

impl Clone for Slug {
    fn clone(&self) -> (r: Self)
        ensures
            r == *self,
    {
        proof {
            use_type_invariant(self);
        }
        Slug(self.0.clone())
    }
}

impl vstd::std_specs::cmp::PartialEqSpecImpl for Slug {
    open spec fn obeys_eq_spec() -> bool {
        true
    }

    open spec fn eq_spec(&self, other: &Self) -> bool {
        self@ == other@
    }
}

impl PartialEq for Slug {
    fn eq(&self, other: &Self) -> (r: bool) {
        self.same_path(other)
    }
}

impl Eq for Slug {

}

impl std::hash::Hash for Slug {
    /// Feeds the path that the slug reads as, so that slugs that are equal
    /// hash alike.
    fn hash<H: std::hash::Hasher>(&self, state: &mut H) {
        hash_text(self.as_str(), state)
    }
}

impl std::str::FromStr for Slug {
    type Err = ConvertError;

    fn from_str(s: &str) -> (r: Result<Slug, ConvertError>)
        ensures
            match r {
                Ok(slug) => rejection(s@) is None && slug.raw() == s@ && slug@ == trim_slashes(s@),
                Err(e) => rejection(s@) == Some((e.position() as int, e.kind())),
            },
    {
        Slug::new(s)
    }
}

/// `<str as Hash>::hash`: feeds a string slice to a hasher.
#[verifier::external_body]
fn hash_text<H: std::hash::Hasher>(text: &str, state: &mut H) {
    std::hash::Hash::hash(text, state)
}

impl View for Slug {
    type V = Seq<char>;

    closed spec fn view(&self) -> Seq<char> {
        trim_slashes(self.0@)
    }
}

impl Slug {
    /// The string as it was given, edge slashes included.
    pub closed spec fn raw(&self) -> Seq<char> {
        self.0@
    }

    #[verifier::type_invariant]
    closed spec fn inv(&self) -> bool {
        well_formed(self.0@)
    }

    /// Creates a new slug from a string.
    ///
    /// This operation fails if any part of the slug has whitespace, the slug
    /// is empty, or consecutive underscores appear.
    pub fn new(s: &str) -> (r: Result<Slug, ConvertError>)
        ensures
            match r {
                Ok(slug) => rejection(s@) is None && slug.raw() == s@ && slug@ == trim_slashes(s@),
                Err(e) => rejection(s@) == Some((e.position() as int, e.kind())),
            },
    {
        let chars = chars_of(s);
        let n = chars.len();
        let bytes = s.as_bytes().len();
        if n == 0 || (chars[0] == '/' && (n == 1 || (n == 2 && chars[1] == '/'))) {
            return Err(ConvertError { position: 0, kind: ConvertErrorKind::Empty });
        }
        if chars[0] == '_' {
            return Err(ConvertError { position: 0, kind: ConvertErrorKind::InvalidChar('_') });
        }
        proof {
            lemma_byte_offset_step(s@, n - 1);
            assert(s@.take(n as int) == s@);
        }
        if chars[n - 1] == '_' {
            return Err(
                ConvertError { position: bytes - 1, kind: ConvertErrorKind::InvalidChar('_') },
            );
        }
        let mut i: usize = 0;
        let mut offset: usize = 0;
        proof {
            assert(s@.take(0) == Seq::<char>::empty());
        }
        while i < n
            invariant
                chars@ == s@,
                n == chars.len(),
                0 <= i <= n,
                offset == byte_offset(s@, i as int),
                bytes == encode_utf8(s@).len(),
                trim_slashes(s@).len() > 0,
                s@[0] != '_',
                s@.last() != '_',
                first_offender(s@, 0) == first_offender(s@, i as int),
            decreases n - i,
        {
            let ch = chars[i];
            proof {
                lemma_byte_offset_step(s@, i as int);
            }
            if !is_valid_char(ch) || (ch == '_' && i > 0 && chars[i - 1] == '_') {
                assert(offends(s@, i as int));
                return Err(ConvertError { position: offset, kind: ConvertErrorKind::InvalidChar(ch) });
            }
            assert(!offends(s@, i as int));
            offset += char_width(ch);
            i += 1;
        }
        proof {
            lemma_rejection_well_formed(s@);
        }
        Ok(Slug(s.to_owned()))
    }

    /// Converts a plain string into a `Slug`: the runs of characters that a
    /// slug can hold are joined by single underscores, and the result is
    /// validated as [`Slug::new`] does.
    ///
    /// This can still produce [`ConvertErrorKind::Empty`] if the input or
    /// output string is empty.
    pub fn slugify(input: &str) -> (r: Result<Slug, ConvertError>)
        ensures
            match r {
                Ok(slug) => rejection(slugified(input@)) is None && slug.raw() == slugified(
                    input@,
                ) && slug@ == trim_slashes(slugified(input@)),
                Err(e) => rejection(slugified(input@)) == Some((e.position() as int, e.kind())),
            },
    {
        let chars = chars_of(input);
        let n = chars.len();
        let mut out = String::new();
        let mut i: usize = 0;
        proof {
            assert(chars@.take(0) == Seq::<char>::empty());
        }
        while i < n
            invariant
                0 <= i <= n,
                n == chars.len(),
                out@ == slugified(chars@.take(i as int)),
            decreases n - i,
        {
            let ch = chars[i];
            proof {
                let next = chars@.take(i + 1);
                assert(next.drop_last() == chars@.take(i as int));
                assert(next.last() == ch);
            }
            if is_valid_char(ch) {
                if i > 0 && !is_valid_char(chars[i - 1]) && out.as_str().unicode_len() > 0 {
                    out.push('_');
                }
                out.push(ch);
            }
            i += 1;
        }
        proof {
            assert(chars@.take(n as int) == chars@);
        }
        Slug::new(out.as_str())
    }

    /// Joins two slugs together by a '/'.
    ///
    /// The result keeps a slash at an edge where the path would otherwise
    /// begin or end with a slash or an underscore, so that it reads as the
    /// two paths with a slash between them.
    pub fn join(&self, other: &Slug) -> (r: Slug)
        ensures
            r@ == self@ + seq!['/'] + other@,
            r.raw() == guarded(self@ + seq!['/'] + other@),
    {
        proof {
            use_type_invariant(self);
            use_type_invariant(other);
        }
        let a = chars_of(self.as_str());
        let b = chars_of(other.as_str());
        let mut out = String::new();
        if a[0] == '_' || a[0] == '/' {
            out.push('/');
        }
        push_range(&mut out, &a, 0, a.len());
        out.push('/');
        push_range(&mut out, &b, 0, b.len());
        if b[b.len() - 1] == '_' || b[b.len() - 1] == '/' {
            out.push('/');
        }
        proof {
            assert(a@.subrange(0, a.len() as int) == a@);
            assert(b@.subrange(0, b.len() as int) == b@);
            lemma_trimmed_is_clean(self.0@);
            lemma_trimmed_is_clean(other.0@);
            lemma_clean_join(a@, b@);
            lemma_guarded(a@ + seq!['/'] + b@);
            assert(out@ =~= guarded(a@ + seq!['/'] + b@));
        }
        Slug(out)
    }

    /// Whether two slugs read as the same path, whatever slashes they carry
    /// at their edges. This is what `==` computes.
    pub fn same_path(&self, other: &Slug) -> (r: bool)
        ensures
            r == (self@ == other@),
    {
        self.as_str().eq(other.as_str())
    }

    /// Gets a reference to the str inside, without the slashes at its
    /// edges.
    pub fn as_str(&self) -> (r: &str)
        ensures
            r@ == self@,
            self@ == trim_slashes(self.raw()),
            self@.len() > 0,
    {
        proof {
            use_type_invariant(self);
        }
        let s = self.0.as_str();
        let n = s.unicode_len();
        let from: usize = if s.get_char(0) == '/' {
            1
        } else {
            0
        };
        let to: usize = if n > from && s.get_char(n - 1) == '/' {
            n - 1
        } else {
            n
        };
        let r = s.substring_char(from, to);
        assert(r@ =~= trim_slashes(s@));
        r
    }

    /// Gives the string inside, including any leading slash that might be
    /// in there.
    pub fn into_string(self) -> (r: String)
        ensures
            r@ == self.raw(),
    {
        self.0
    }

    /// Gets a reference to the str inside, including any leading slash that
    /// might be in there.
    pub fn as_str_raw(&self) -> (r: &str)
        ensures
            r@ == self.raw(),
            well_formed(self.raw()),
    {
        proof {
            use_type_invariant(self);
        }
        self.0.as_str()
    }

    /// Returns a substring of the slug that indicates its parent directory:
    /// what stands before the last slash.
    ///
    /// Returns `None` if it is on the base directory.
    pub fn parent(&self) -> (r: Option<&str>)
        ensures
            match last_index_of(self@, '/') {
                Some(i) => r is Some && r.unwrap()@ == self@.take(i),
                None => r is None,
            },
    {
        let s = self.as_str();
        let chars = chars_of(s);
        proof {
            assert(chars@.take(chars.len() as int) == chars@);
        }
        match rfind_char(&chars, chars.len(), '/') {
            Some(i) => Some(s.substring_char(0, i)),
            None => None,
        }
    }

    /// Gets the title of a slug by getting the last segment and replacing
    /// underscores with ASCII spaces.
    pub fn title(&self) -> (r: String)
        ensures
            r@ == title_of(self@),
    {
        let chars = chars_of(self.as_str());
        let n = chars.len();
        proof {
            assert(chars@.take(n as int) == chars@);
        }
        let start: usize = match rfind_char(&chars, n, '/') {
            Some(i) => i + 1,
            None => 0,
        };
        let mut out = String::new();
        let mut i: usize = start;
        while i < n
            invariant
                start <= i <= n,
                n == chars.len(),
                out@ == chars@.subrange(start as int, i as int).map_values(|c: char| spaced(c)),
            decreases n - i,
        {
            let ch = chars[i];
            out.push(if ch == '_' {
                ' '
            } else {
                ch
            });
            assert(chars@.subrange(start as int, i + 1) == chars@.subrange(
                start as int,
                i as int,
            ).push(ch));
            assert(chars@.subrange(start as int, i + 1).map_values(|c: char| spaced(c))
                =~= chars@.subrange(start as int, i as int).map_values(|c: char| spaced(c)).push(
                spaced(ch),
            ));
            i += 1;
        }
        assert(chars@.subrange(start as int, n as int) == chars@.skip(start as int));
        out
    }
}

/// The runs of valid characters of `s`, joined by single underscores.
pub open spec fn slugified(s: Seq<char>) -> Seq<char>
    decreases s.len(),
{
    if s.len() == 0 {
        Seq::empty()
    } else {
        let before = slugified(s.drop_last());
        if !valid_char(s.last()) {
            before
        } else if s.len() >= 2 && !valid_char(s[s.len() - 2]) && before.len() > 0 {
            before.push('_').push(s.last())
        } else {
            before.push(s.last())
        }
    }
}

/// What [`slugified`] gives holds no whitespace, so that it is rejected only
/// for being empty or for its underscores.
pub proof fn lemma_slugified_has_no_whitespace(s: Seq<char>)
    ensures
        forall|i: int| 0 <= i < slugified(s).len() ==> valid_char(#[trigger] slugified(s)[i]),
    decreases s.len(),
{
    if s.len() > 0 {
        lemma_slugified_has_no_whitespace(s.drop_last());
        let before = slugified(s.drop_last());
        let t = slugified(s);
        assert(valid_char('_'));
        assert forall|i: int| 0 <= i < t.len() implies valid_char(#[trigger] t[i]) by {
            if i < before.len() {
                assert(t[i] == before[i]);
            }
        }
    }
}

/// A text without underscores is slugified to a slug, unless nothing but
/// whitespace and edge slashes is in it: its words are joined by single
/// underscores, none of which stands at an edge.
pub proof fn lemma_slugified_is_accepted(s: Seq<char>)
    requires
        forall|i: int| 0 <= i < s.len() ==> s[i] != '_',
        trim_slashes(slugified(s)).len() > 0,
    ensures
        rejection(slugified(s)) is None,
{
    lemma_slugified_shape(s);
    lemma_slugified_has_no_whitespace(s);
    lemma_rejection_well_formed(slugified(s));
}

/// Where `s` holds no underscore, every underscore of [`slugified`] stands
/// between two other characters.
proof fn lemma_slugified_shape(s: Seq<char>)
    requires
        forall|i: int| 0 <= i < s.len() ==> s[i] != '_',
    ensures
        ({
            let t = slugified(s);
            &&& t.len() > 0 ==> t[0] != '_' && t.last() != '_'
            &&& forall|i: int| 0 < i < t.len() ==> !(t[i - 1] == '_' && #[trigger] t[i] == '_')
        }),
    decreases s.len(),
{
    if s.len() > 0 {
        lemma_slugified_shape(s.drop_last());
        let before = slugified(s.drop_last());
        let t = slugified(s);
        if valid_char(s.last()) {
            if s.len() >= 2 && !valid_char(s[s.len() - 2]) && before.len() > 0 {
                assert(t == before.push('_').push(s.last()));
                assert forall|i: int| 0 < i < t.len() implies !(t[i - 1] == '_' && #[trigger] t[i]
                    == '_') by {
                    if i < before.len() {
                        assert(t[i] == before[i] && t[i - 1] == before[i - 1]);
                    } else if i == before.len() {
                        assert(t[i - 1] == before.last());
                    }
                }
            } else {
                assert(t == before.push(s.last()));
                assert forall|i: int| 0 < i < t.len() implies !(t[i - 1] == '_' && #[trigger] t[i]
                    == '_') by {
                    if i < before.len() {
                        assert(t[i] == before[i] && t[i - 1] == before[i - 1]);
                    }
                }
            }
        }
    }
}

/// No character of `s` is whitespace and no underscore follows another.
pub open spec fn clean(s: Seq<char>) -> bool {
    &&& forall|i: int| 0 <= i < s.len() ==> !is_whitespace(#[trigger] s[i])
    &&& forall|i: int| 0 < i < s.len() ==> !(s[i - 1] == '_' && #[trigger] s[i] == '_')
}

/// The string kept for a path: a slash is put at an edge where the path
/// begins or ends with a slash or an underscore.
pub open spec fn guarded(path: Seq<char>) -> Seq<char> {
    let lead = if path.len() > 0 && (path[0] == '_' || path[0] == '/') {
        seq!['/']
    } else {
        Seq::empty()
    };
    let trail = if path.len() > 0 && (path.last() == '_' || path.last() == '/') {
        seq!['/']
    } else {
        Seq::empty()
    };
    lead + path + trail
}

/// What a well-formed string reads as without its edge slashes is clean and
/// not empty.
pub proof fn lemma_trimmed_is_clean(s: Seq<char>)
    requires
        well_formed(s),
    ensures
        clean(trim_slashes(s)),
        trim_slashes(s).len() > 0,
{
    let t = trim_slashes(s);
    let f: int = if s[0] == '/' {
        1
    } else {
        0
    };
    assert(forall|i: int| 0 <= i < t.len() ==> t[i] == s[i + f]);
    assert forall|i: int| 0 <= i < t.len() implies !is_whitespace(#[trigger] t[i]) by {
        assert(!offends(s, i + f));
    }
    assert forall|i: int| 0 < i < t.len() implies !(t[i - 1] == '_' && #[trigger] t[i] == '_') by {
        assert(!offends(s, i + f));
    }
}

/// Two clean paths with a slash between them are a clean path.
pub proof fn lemma_clean_join(a: Seq<char>, b: Seq<char>)
    requires
        clean(a),
        clean(b),
    ensures
        clean(a + seq!['/'] + b),
{
    let mid = a + seq!['/'] + b;
    let n = a.len() as int;
    assert forall|i: int| 0 <= i < mid.len() implies !is_whitespace(#[trigger] mid[i]) by {
        if i < n {
            assert(mid[i] == a[i]);
        } else if i > n {
            assert(mid[i] == b[i - n - 1]);
        }
    }
    assert forall|i: int| 0 < i < mid.len() implies !(mid[i - 1] == '_' && #[trigger] mid[i]
        == '_') by {
        if i < n {
            assert(mid[i] == a[i] && mid[i - 1] == a[i - 1]);
        } else if i > n + 1 {
            assert(mid[i] == b[i - n - 1] && mid[i - 1] == b[i - n - 2]);
        } else if i == n {
            assert(mid[i] == '/');
        } else {
            assert(mid[i - 1] == '/');
        }
    }
}

/// A clean path that is not empty is kept as a well-formed string, which
/// reads as the path.
pub proof fn lemma_guarded(path: Seq<char>)
    requires
        clean(path),
        path.len() > 0,
    ensures
        well_formed(guarded(path)),
        trim_slashes(guarded(path)) == path,
{
    let g = guarded(path);
    let k: int = if path[0] == '_' || path[0] == '/' {
        1
    } else {
        0
    };
    let n = path.len() as int;
    assert(forall|i: int| 0 <= i < n ==> g[k + i] == path[i]);
    assert(forall|i: int| 0 <= i < k ==> g[i] == '/');
    assert(forall|i: int| k + n <= i < g.len() ==> g[i] == '/');
    assert forall|i: int| 0 <= i < g.len() implies !offends(g, i) by {
        if k <= i < k + n {
            assert(g[i] == path[i - k]);
            assert(!is_whitespace(path[i - k]));
            if i > k {
                assert(g[i - 1] == path[i - k - 1]);
                assert(!(path[i - k - 1] == '_' && path[i - k] == '_'));
            }
        }
    }
    assert(trim_slashes(g) =~= path);
}

/// An underscore is shown as a space.
pub open spec fn spaced(c: char) -> char {
    if c == '_' {
        ' '
    } else {
        c
    }
}

/// The last path segment of `s`, its underscores replaced by spaces.
pub open spec fn title_of(s: Seq<char>) -> Seq<char> {
    let start = match last_index_of(s, '/') {
        Some(i) => i + 1,
        None => 0,
    };
    s.skip(start).map_values(|c: char| spaced(c))
}

} // verus!
