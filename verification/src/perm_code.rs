use vstd::prelude::*;
use vstd::string::*;

verus! {

/// A character that may appear inside one segment of a permission code.
pub open spec fn is_code_char(c: char) -> bool {
    ('A' <= c && c <= 'Z') || c == '_'
}

/// One segment of a permission code: non-empty, upper-case letters and `_` only.
pub open spec fn valid_code(s: Seq<char>) -> bool {
    &&& s.len() > 0
    &&& forall|i: int| 0 <= i < s.len() ==> is_code_char(#[trigger] s[i])
}

/// The pieces of `s` between dots, as `str::split('.')` yields them
/// (an empty string gives one empty piece).
pub open spec fn split_dot(s: Seq<char>) -> Seq<Seq<char>>
    decreases s.len(),
{
    if s.len() == 0 {
        seq![Seq::<char>::empty()]
    } else {
        let p = split_dot(s.drop_last());
        if s.last() == '.' {
            p.push(Seq::<char>::empty())
        } else {
            p.update(p.len() - 1, p.last().push(s.last()))
        }
    }
}

/// The pieces joined back together with a dot between neighbours.
pub open spec fn join_dot(parts: Seq<Seq<char>>) -> Seq<char>
    decreases parts.len(),
{
    if parts.len() == 0 {
        Seq::<char>::empty()
    } else if parts.len() == 1 {
        parts[0]
    } else {
        join_dot(parts.drop_last()) + seq!['.'] + parts.last()
    }
}

/// A dotted permission code: non-empty, and every piece between dots is a valid segment.
pub open spec fn valid_dot_code(s: Seq<char>) -> bool {
    &&& s.len() > 0
    &&& forall|i: int| 0 <= i < split_dot(s).len() ==> valid_code(#[trigger] split_dot(s)[i])
}

/// Index of the last `.` in `s`, or -1 when there is none.
pub open spec fn last_dot(s: Seq<char>) -> int
    decreases s.len(),
{
    if s.len() == 0 {
        -1
    } else if s.last() == '.' {
        s.len() - 1
    } else {
        last_dot(s.drop_last())
    }
}

/// The prefixes of `s` that end just before one of its dots, shortest first.
pub open spec fn dot_prefixes(s: Seq<char>) -> Seq<Seq<char>>
    decreases s.len(),
{
    if s.len() == 0 {
        Seq::empty()
    } else if s.last() == '.' {
        dot_prefixes(s.drop_last()).push(s.drop_last())
    } else {
        dot_prefixes(s.drop_last())
    }
}

/// `a` is `b` itself, or `b` continues `a` with a dot; neither may be empty.
pub open spec fn ancestor_of(a: Seq<char>, b: Seq<char>) -> bool {
    &&& a.len() > 0
    &&& b.len() > 0
    &&& (b == a || (b.len() > a.len() && b.take(a.len() as int) == a && b[a.len() as int] == '.'))
}

/// The text of a code after a segment has been added at its end.
pub open spec fn pushed(s: Seq<char>, code: Seq<char>) -> Seq<char> {
    if s.len() == 0 {
        code
    } else {
        s + seq!['.'] + code
    }
}

/// The number of segments of a code: 0 for the empty text, else the number
/// of pieces between dots.
pub open spec fn segment_count(s: Seq<char>) -> nat {
    if s.len() == 0 {
        0
    } else {
        split_dot(s).len()
    }
}

/// The number of dots in `s`.
pub open spec fn dot_count(s: Seq<char>) -> nat
    decreases s.len(),
{
    if s.len() == 0 {
        0
    } else {
        dot_count(s.drop_last()) + if s.last() == '.' { 1nat } else { 0nat }
    }
}

pub proof fn lemma_split_dot_nonempty(s: Seq<char>)
    ensures
        split_dot(s).len() >= 1,
    decreases s.len(),
{
    if s.len() > 0 {
        lemma_split_dot_nonempty(s.drop_last());
    }
}

/// A dotted permission code, such as `POST.EDIT`.
#[derive(Debug, Eq, Hash)]
pub struct PermCode(String);

/// The text that was refused as a permission code.
#[derive(Debug)]
pub struct PermCodeInvalidError(String);

impl View for PermCode {
    type V = Seq<char>;

    closed spec fn view(&self) -> Seq<char> {
        self.0@
    }
}

impl View for PermCodeInvalidError {
    type V = Seq<char>;

    closed spec fn view(&self) -> Seq<char> {
        self.0@
    }
}

impl Clone for PermCode {
    fn clone(&self) -> (r: Self)
        ensures
            r@ == self@,
    {
        PermCode(self.0.clone())
    }
}

impl PartialEq for PermCode {
    fn eq(&self, other: &Self) -> (r: bool) {
        self.0 == other.0
    }
}

impl vstd::std_specs::cmp::PartialEqSpecImpl for PermCode {
    open spec fn obeys_eq_spec() -> bool {
        true
    }

    open spec fn eq_spec(&self, other: &PermCode) -> bool {
        self@ == other@
    }
}

impl Default for PermCode {
    /// The empty code.
    fn default() -> (r: Self)
        ensures
            r@ == Seq::<char>::empty(),
    {
        PermCode(String::new())
    }
}

impl From<PermCode> for String {
    /// The text of the code.
    fn from(code: PermCode) -> (r: String) {
        code.0
    }
}

impl vstd::std_specs::convert::FromSpecImpl<PermCode> for String {
    open spec fn obeys_from_spec() -> bool {
        true
    }

    closed spec fn from_spec(code: PermCode) -> String {
        code.0
    }
}

/// The string a code converts into holds the code's text.
pub proof fn law_string_from_code(code: PermCode)
    ensures
        <String as vstd::std_specs::convert::FromSpec<PermCode>>::from_spec(code)@ == code@,
{
}

impl AsRef<str> for PermCode {
    /// The text of the code.
    fn as_ref(&self) -> (r: &str) {
        self.0.as_str()
    }
}

impl PermCodeInvalidError {
    /// The message `Invalid perm code: <text>`.
    pub fn message(&self) -> (r: String)
        ensures
            r@ == "Invalid perm code: "@ + self@,
    {
        let mut m = "Invalid perm code: ".to_owned();
        m.append(self.0.as_str());
        m
    }

    /// The refused text.
    pub fn as_str(&self) -> (r: &str)
        ensures
            r@ == self@,
    {
        self.0.as_str()
    }
}

fn is_code_char_exec(c: char) -> (r: bool)
    ensures
        r == is_code_char(c),
{
    ('A' <= c && c <= 'Z') || c == '_'
}

fn is_valid_code(code: &str) -> (r: bool)
    ensures
        r == valid_code(code@),
{
    let n = code.unicode_len();
    if n == 0 {
        return false;
    }
    let mut i: usize = 0;
    while i < n
        invariant
            n == code@.len(),
            i <= n,
            forall|j: int| 0 <= j < i ==> is_code_char(#[trigger] code@[j]),
        decreases n - i,
    {
        if !is_code_char_exec(code.get_char(i)) {
            return false;
        }
        i = i + 1;
    }
    true
}

fn is_valid_dot_code(s: &str) -> (r: bool)
    ensures
        r == valid_dot_code(s@),
{
    let n = s.unicode_len();
    let mut i: usize = 0;
    let mut done_ok = true;
    let mut cur_ok = true;
    let mut cur_len: usize = 0;
    proof {
        assert(s@.take(0) =~= Seq::<char>::empty());
    }
    while i < n
        invariant
            n == s@.len(),
            i <= n,
            cur_len <= i,
            ({
                let parts = split_dot(s@.take(i as int));
                &&& parts.len() >= 1
                &&& done_ok == (forall|j: int|
                    0 <= j < parts.len() - 1 ==> valid_code(#[trigger] parts[j]))
                &&& cur_ok == (forall|k: int|
                    0 <= k < parts.last().len() ==> is_code_char(#[trigger] parts.last()[k]))
                &&& cur_len == parts.last().len()
            }),
        decreases n - i,
    {
        let c = s.get_char(i);
        let ghost prev = split_dot(s@.take(i as int));
        proof {
            assert(s@.take(i + 1).drop_last() =~= s@.take(i as int));
            assert(s@.take(i + 1).last() == c);
        }
        if c == '.' {
            done_ok = done_ok && cur_ok && cur_len > 0;
            cur_ok = true;
            cur_len = 0;
            proof {
                let next = split_dot(s@.take(i + 1));
                assert(next == prev.push(Seq::<char>::empty()));
                assert(done_ok == (forall|j: int| 0 <= j < next.len() - 1 ==> valid_code(#[trigger] next[j]))) by {
                    if done_ok {
                        assert forall|j: int| 0 <= j < next.len() - 1 implies valid_code(#[trigger] next[j]) by {
                            if j < prev.len() - 1 {
                                assert(next[j] == prev[j]);
                            } else {
                                assert(next[j] == prev.last());
                            }
                        }
                    } else {
                        if !(forall|j: int| 0 <= j < prev.len() - 1 ==> valid_code(#[trigger] prev[j])) {
                            let j = choose|j: int| 0 <= j < prev.len() - 1 && !valid_code(#[trigger] prev[j]);
                            assert(next[j] == prev[j]);
                        } else {
                            assert(next[prev.len() - 1] == prev.last());
                        }
                    }
                }
            }
        } else {
            cur_ok = cur_ok && is_code_char_exec(c);
            cur_len = cur_len + 1;
            proof {
                let next = split_dot(s@.take(i + 1));
                assert(next == prev.update(prev.len() - 1, prev.last().push(c)));
                assert forall|j: int| 0 <= j < next.len() - 1 implies next[j] == prev[j] by {}
                assert(next.last() == prev.last().push(c));
                if cur_ok {
                    assert forall|k: int| 0 <= k < next.last().len() implies is_code_char(#[trigger] next.last()[k]) by {
                        if k < prev.last().len() {
                            assert(next.last()[k] == prev.last()[k]);
                        }
                    }
                } else if !is_code_char(c) {
                    assert(next.last()[next.last().len() - 1] == c);
                } else {
                    let k = choose|k: int| 0 <= k < prev.last().len() && !is_code_char(#[trigger] prev.last()[k]);
                    assert(next.last()[k] == prev.last()[k]);
                }
            }
        }
        i = i + 1;
    }
    proof {
        assert(s@.take(n as int) =~= s@);
        let parts = split_dot(s@);
        if n > 0 && done_ok && cur_ok && cur_len > 0 {
            assert forall|j: int| 0 <= j < parts.len() implies valid_code(#[trigger] parts[j]) by {
                if j == parts.len() - 1 {
                    assert(parts[j] == parts.last());
                }
            }
        }
        if n > 0 && valid_dot_code(s@) {
            assert(valid_code(parts[parts.len() - 1]));
        }
    }
    n > 0 && done_ok && cur_ok && cur_len > 0
}


impl PermCode {
    /// Accepts `code` when it is a valid dotted code; refuses it otherwise.
    pub fn new(code: String) -> (r: Result<PermCode, PermCodeInvalidError>)
        ensures
            r is Ok <==> valid_dot_code(code@),
            r matches Ok(c) ==> c@ == code@,
            r matches Err(e) ==> e@ == code@,
    {
        if !is_valid_dot_code(code.as_str()) {
            return Err(PermCodeInvalidError(code));
        }
        Ok(PermCode(code))
    }

    /// The code for a text known to be valid (what converting a `String`
    /// into a code does; the conversion itself would panic on other texts).
    pub fn from_string(s: String) -> (r: PermCode)
        requires
            valid_dot_code(s@),
        ensures
            r@ == s@,
    {
        PermCode(s)
    }

    /// The code for a `&str` known to be valid.
    pub fn from_text(s: &str) -> (r: PermCode)
        requires
            valid_dot_code(s@),
        ensures
            r@ == s@,
    {
        PermCode(s.to_owned())
    }

    /// Wraps `code` without looking at it.
    pub fn new_unchecked(code: String) -> (r: PermCode)
        ensures
            r@ == code@,
    {
        PermCode(code)
    }

    /// The empty code.
    pub fn empty() -> (r: PermCode)
        ensures
            r@ == Seq::<char>::empty(),
    {
        PermCode(String::new())
    }

    /// Accepts `s` when it is a valid dotted code; refuses it otherwise.
    pub fn try_from_str(s: &str) -> (r: Result<PermCode, PermCodeInvalidError>)
        ensures
            r is Ok <==> valid_dot_code(s@),
            r matches Ok(c) ==> c@ == s@,
            r matches Err(e) ==> e@ == s@,
    {
        if !is_valid_dot_code(s) {
            return Err(PermCodeInvalidError(s.to_owned()));
        }
        Ok(PermCode(s.to_owned()))
    }

    fn append_segment(&mut self, code: &str)
        ensures
            final(self)@ == pushed(old(self)@, code@),
    {
        if self.0.unicode_len() == 0 {
            self.0 = code.to_owned();
        } else {
            proof {
                reveal_strlit(".");
            }
            self.0.append(".");
            self.0.append(code);
        }
    }

    /// Adds one valid segment at the end; an invalid segment is refused and
    /// the code is left as it was.
    pub fn push(&mut self, code: String) -> (r: Result<(), PermCodeInvalidError>)
        ensures
            r is Ok <==> valid_code(code@),
            r is Ok ==> final(self)@ == pushed(old(self)@, code@),
            r matches Err(e) ==> e@ == code@ && final(self)@ == old(self)@,
    {
        if !is_valid_code(code.as_str()) {
            return Err(PermCodeInvalidError(code));
        }
        self.append_segment(code.as_str());
        Ok(())
    }

    /// Adds a segment at the end without looking at it.
    pub fn push_unchecked(&mut self, code: String)
        ensures
            final(self)@ == pushed(old(self)@, code@),
    {
        self.append_segment(code.as_str());
    }

    /// The number of segments; 0 for the empty code.
    pub fn len(&self) -> (r: usize)
        requires
            self@.len() < usize::MAX,
        ensures
            r == segment_count(self@),
    {
        let n = self.0.unicode_len();
        if n == 0 {
            return 0;
        }
        let mut count: usize = 1;
        let mut i: usize = 0;
        proof {
            assert(self@.take(0) =~= Seq::<char>::empty());
        }
        while i < n
            invariant
                n == self@.len(),
                i <= n,
                1 <= count <= i + 1,
                n < usize::MAX,
                count == split_dot(self@.take(i as int)).len(),
            decreases n - i,
        {
            let c = self.0.as_str().get_char(i);
            proof {
                assert(self@.take(i + 1).drop_last() =~= self@.take(i as int));
                assert(self@.take(i + 1).last() == c);
            }
            if c == '.' {
                count = count + 1;
            }
            i = i + 1;
        }
        proof {
            assert(self@.take(n as int) =~= self@);
        }
        count
    }

    /// Whether the code has no text at all.
    pub fn is_empty(&self) -> (r: bool)
        ensures
            r == (self@.len() == 0),
    {
        self.0.unicode_len() == 0
    }

    /// The text of the code.
    pub fn as_str(&self) -> (r: &str)
        ensures
            r@ == self@,
    {
        self.0.as_str()
    }

    /// The text of the code as an owned string.
    pub fn to_string(&self) -> (r: String)
        ensures
            r@ == self@,
    {
        self.0.clone()
    }

    /// Whether the text is a valid dotted code.
    pub fn is_valid(&self) -> (r: bool)
        ensures
            r == valid_dot_code(self@),
    {
        is_valid_dot_code(self.0.as_str())
    }

    /// Index of the last dot, if any.
    fn find_last_dot(&self) -> (r: Option<usize>)
        ensures
            last_dot(self@) < 0 ==> r is None,
            last_dot(self@) >= 0 ==> r is Some,
            r matches Some(p) ==> p as int == last_dot(self@),
            -1 <= last_dot(self@) < self@.len(),
    {
        let n = self.0.unicode_len();
        let mut i: usize = 0;
        let mut pos: Option<usize> = None;
        proof {
            assert(self@.take(0) =~= Seq::<char>::empty());
        }
        while i < n
            invariant
                n == self@.len(),
                i <= n,
                last_dot(self@.take(i as int)) < 0 ==> pos is None,
                last_dot(self@.take(i as int)) >= 0 ==> pos is Some,
                pos matches Some(p) ==> p as int == last_dot(self@.take(i as int)),
                -1 <= last_dot(self@.take(i as int)) < i,
            decreases n - i,
        {
            let c = self.0.as_str().get_char(i);
            proof {
                assert(self@.take(i + 1).drop_last() =~= self@.take(i as int));
                assert(self@.take(i + 1).last() == c);
            }
            if c == '.' {
                pos = Some(i);
            }
            i = i + 1;
        }
        proof {
            assert(self@.take(n as int) =~= self@);
        }
        pos
    }

    /// The code without its last segment; `None` when there is no dot.
    pub fn parent(&self) -> (r: Option<PermCode>)
        ensures
            last_dot(self@) < 0 ==> r is None,
            last_dot(self@) >= 0 ==> (r matches Some(p) && p@ == self@.take(last_dot(self@))),
    {
        match self.find_last_dot() {
            Some(pos) => {
                let sub = self.0.as_str().substring_char(0, pos);
                let p = PermCode(sub.to_owned());
                proof {
                    assert(sub@ == self@.subrange(0, pos as int));
                    assert(p@ == sub@);
                    assert(pos as int == last_dot(self@));
                    assert(p@ == self@.take(last_dot(self@)));
                    assert(self@.subrange(0, pos as int) =~= self@.take(pos as int));
                }
                Some(p)
            },
            None => None,
        }
    }

    /// The last segment (the whole text when there is no dot).
    pub fn last(&self) -> (r: Option<String>)
        ensures
            r matches Some(l) && l@ == self@.skip(last_dot(self@) + 1),
    {
        let n = self.0.unicode_len();
        match self.find_last_dot() {
            Some(pos) => {
                let l = self.0.as_str().substring_char(pos + 1, n).to_owned();
                proof {
                    assert(self@.subrange(pos + 1, n as int) =~= self@.skip(pos + 1));
                }
                Some(l)
            },
            None => {
                proof {
                    assert(self@.skip(0) =~= self@);
                }
                Some(self.0.clone())
            },
        }
    }

    /// Whether the code minus its last segment is exactly `parent`.
    pub fn is_child_of(&self, parent: &str) -> (r: bool)
        ensures
            r == (last_dot(self@) >= 0 && self@.take(last_dot(self@)) == parent@),
    {
        match self.parent() {
            Some(p) => p.0 == parent.to_owned(),
            None => false,
        }
    }

    /// Every proper prefix that ends just before a dot, shortest first.
    pub fn ancestors(&self) -> (r: Vec<PermCode>)
        ensures
            r@.map_values(|c: PermCode| c@) == dot_prefixes(self@),
    {
        let n = self.0.unicode_len();
        let mut out: Vec<PermCode> = Vec::new();
        let mut i: usize = 0;
        proof {
            assert(self@.take(0) =~= Seq::<char>::empty());
            assert(out@.map_values(|c: PermCode| c@) =~= Seq::<Seq<char>>::empty());
        }
        while i < n
            invariant
                n == self@.len(),
                i <= n,
                out@.map_values(|c: PermCode| c@) == dot_prefixes(self@.take(i as int)),
            decreases n - i,
        {
            let c = self.0.as_str().get_char(i);
            let ghost before = out@;
            proof {
                assert(self@.take(i + 1).drop_last() =~= self@.take(i as int));
                assert(self@.take(i + 1).last() == c);
            }
            if c == '.' {
                let prefix = PermCode(self.0.as_str().substring_char(0, i).to_owned());
                out.push(prefix);
                proof {
                    assert(self@.subrange(0, i as int) =~= self@.take(i as int));
                    assert(out@.map_values(|c: PermCode| c@) =~= before.map_values(|c: PermCode| c@).push(self@.take(i as int)));
                }
            }
            i = i + 1;
        }
        proof {
            assert(self@.take(n as int) =~= self@);
        }
        out
    }

    /// Whether `other` is this code or lies below it; false when either is empty.
    pub fn is_ancestor_of(&self, other: &PermCode) -> (r: bool)
        ensures
            r == ancestor_of(self@, other@),
    {
        let a = self.0.as_str();
        let b = other.0.as_str();
        let na = a.unicode_len();
        let nb = b.unicode_len();
        if na == 0 || nb == 0 {
            return false;
        }
        if nb < na {
            proof {
                assert(other@ != self@);
            }
            return false;
        }
        let mut i: usize = 0;
        while i < na
            invariant
                na == self@.len(),
                nb == other@.len(),
                na <= nb,
                i <= na,
                a@ == self@,
                b@ == other@,
                forall|j: int| 0 <= j < i ==> other@[j] == self@[j],
            decreases na - i,
        {
            if a.get_char(i) != b.get_char(i) {
                proof {
                    assert(other@.take(na as int)[i as int] != self@[i as int]);
                    assert(other@ != self@);
                }
                return false;
            }
            i = i + 1;
        }
        proof {
            assert(other@.take(na as int) =~= self@);
        }
        if nb == na {
            proof {
                assert(other@ =~= self@);
            }
            true
        } else {
            b.get_char(na) == '.'
        }
    }

    /// Whether this code is `other` or lies below it.
    pub fn is_descendant_of(&self, other: &PermCode) -> (r: bool)
        ensures
            r == ancestor_of(other@, self@),
    {
        other.is_ancestor_of(self)
    }

    /// Joins `codes` with dots; accepted when the joined text is a valid code.
    pub fn from_vec(codes: Vec<String>) -> (r: Result<PermCode, PermCodeInvalidError>)
        ensures
            r is Ok <==> valid_dot_code(join_dot(codes@.map_values(|c: String| c@))),
            r matches Ok(c) ==> c@ == join_dot(codes@.map_values(|c: String| c@)),
            r matches Err(e) ==> e@ == join_dot(codes@.map_values(|c: String| c@)),
    {
        let mut code = String::new();
        let n = codes.len();
        let mut i: usize = 0;
        proof {
            assert(codes@.take(0).map_values(|c: String| c@) =~= Seq::<Seq<char>>::empty());
        }
        while i < n
            invariant
                n == codes@.len(),
                i <= n,
                code@ == join_dot(codes@.take(i as int).map_values(|c: String| c@)),
            decreases n - i,
        {
            let ghost parts = codes@.take(i + 1).map_values(|c: String| c@);
            proof {
                assert(parts.drop_last() =~= codes@.take(i as int).map_values(|c: String| c@));
                assert(parts.last() == codes@[i as int]@);
            }
            if i > 0 {
                proof {
                    reveal_strlit(".");
                }
                code.append(".");
            }
            code.append(codes[i].as_str());
            i = i + 1;
        }
        proof {
            assert(codes@.take(n as int) =~= codes@);
        }
        if !is_valid_dot_code(code.as_str()) {
            return Err(PermCodeInvalidError(code));
        }
        Ok(PermCode(code))
    }

    /// The pieces between dots (one empty piece for the empty code).
    pub fn to_vec(&self) -> (r: Vec<String>)
        ensures
            r@.map_values(|p: String| p@) == split_dot(self@),
    {
        let s = self.0.as_str();
        let n = s.unicode_len();
        let mut out: Vec<String> = Vec::new();
        let mut start: usize = 0;
        let mut i: usize = 0;
        proof {
            assert(self@.take(0) =~= Seq::<char>::empty());
            assert(out@.map_values(|p: String| p@).push(self@.subrange(0, 0)) =~= split_dot(self@.take(0)));
        }
        while i < n
            invariant
                n == self@.len(),
                s@ == self@,
                start <= i <= n,
                out@.map_values(|p: String| p@).push(self@.subrange(start as int, i as int))
                    == split_dot(self@.take(i as int)),
            decreases n - i,
        {
            let c = s.get_char(i);
            let ghost before = out@;
            proof {
                assert(self@.take(i + 1).drop_last() =~= self@.take(i as int));
                assert(self@.take(i + 1).last() == c);
            }
            if c == '.' {
                let piece = s.substring_char(start, i).to_owned();
                out.push(piece);
                proof {
                    assert(out@.map_values(|p: String| p@) =~= before.map_values(|p: String| p@).push(self@.subrange(start as int, i as int)));
                    assert(self@.subrange(i + 1, i + 1) =~= Seq::<char>::empty());
                }
                start = i + 1;
            } else {
                proof {
                    let prev = split_dot(self@.take(i as int));
                    assert(self@.subrange(start as int, i + 1) =~= self@.subrange(start as int, i as int).push(c));
                    assert(out@.map_values(|p: String| p@).push(self@.subrange(start as int, i + 1))
                        =~= prev.update(prev.len() - 1, prev.last().push(c)));
                }
            }
            i = i + 1;
        }
        proof {
            assert(self@.take(n as int) =~= self@);
        }
        let last = s.substring_char(start, n).to_owned();
        let ghost before = out@;
        out.push(last);
        proof {
            assert(out@.map_values(|p: String| p@) =~= before.map_values(|p: String| p@).push(self@.subrange(start as int, n as int)));
        }
        out
    }

    /// The same pieces as `to_vec`.
    pub fn iter(&self) -> (r: Vec<String>)
        ensures
            r@.map_values(|p: String| p@) == split_dot(self@),
    {
        self.to_vec()
    }
}


/// No character of `s` is a dot.
pub open spec fn dot_free(s: Seq<char>) -> bool {
    forall|i: int| 0 <= i < s.len() ==> s[i] != '.'
}

proof fn lemma_split_append_dot_free(a: Seq<char>, u: Seq<char>)
    requires
        dot_free(u),
    ensures
        split_dot(a + u) == split_dot(a).update(
            split_dot(a).len() - 1,
            split_dot(a).last() + u,
        ),
    decreases u.len(),
{
    lemma_split_dot_nonempty(a);
    if u.len() == 0 {
        assert(a + u =~= a);
        assert(split_dot(a).last() + u =~= split_dot(a).last());
        assert(split_dot(a).update(split_dot(a).len() - 1, split_dot(a).last()) =~= split_dot(a));
    } else {
        let c = u.last();
        assert(u[u.len() - 1] != '.');
        assert(dot_free(u.drop_last()));
        lemma_split_append_dot_free(a, u.drop_last());
        assert((a + u).drop_last() =~= a + u.drop_last());
        assert((a + u).last() == c);
        let q = split_dot(a);
        let p = split_dot(a + u.drop_last());
        assert(p == q.update(q.len() - 1, q.last() + u.drop_last()));
        assert(p.len() == q.len());
        assert(p.last() == q.last() + u.drop_last());
        assert(split_dot(a + u) == p.update(p.len() - 1, p.last().push(c)));
        assert(q.last() + u.drop_last() + seq![c] =~= q.last() + u);
        assert((q.last() + u.drop_last()).push(c) =~= q.last() + u);
        assert(split_dot(a + u) =~= q.update(q.len() - 1, q.last() + u));
    }
}

proof fn lemma_split_dot_then(a: Seq<char>, u: Seq<char>)
    requires
        dot_free(u),
    ensures
        split_dot(a + seq!['.'] + u) == split_dot(a).push(u),
{
    let b = a + seq!['.'];
    assert(b.drop_last() =~= a);
    assert(b.last() == '.');
    assert(split_dot(b) == split_dot(a).push(Seq::<char>::empty()));
    lemma_split_append_dot_free(b, u);
    assert(Seq::<char>::empty() + u =~= u);
    assert(split_dot(b + u) =~= split_dot(a).push(u));
}

proof fn lemma_valid_code_dot_free(s: Seq<char>)
    requires
        valid_code(s),
    ensures
        dot_free(s),
{
    assert forall|i: int| 0 <= i < s.len() implies s[i] != '.' by {
        assert(is_code_char(s[i]));
    }
}

proof fn lemma_split_single(u: Seq<char>)
    requires
        dot_free(u),
    ensures
        split_dot(u) == seq![u],
{
    let e = Seq::<char>::empty();
    assert(split_dot(e) == seq![e]);
    lemma_split_append_dot_free(e, u);
    assert(e + u =~= u);
    assert(e + u =~= u);
    assert(seq![e].update(0, e + u) =~= seq![u]);
}

proof fn lemma_last_dot_append_dot_free(a: Seq<char>, u: Seq<char>)
    requires
        dot_free(u),
    ensures
        last_dot(a + u) == last_dot(a),
    decreases u.len(),
{
    if u.len() == 0 {
        assert(a + u =~= a);
    } else {
        assert(u[u.len() - 1] != '.');
        assert(dot_free(u.drop_last()));
        assert((a + u).drop_last() =~= a + u.drop_last());
        lemma_last_dot_append_dot_free(a, u.drop_last());
    }
}

proof fn lemma_join_push(p: Seq<Seq<char>>, c: char)
    requires
        p.len() >= 1,
    ensures
        join_dot(p.update(p.len() - 1, p.last().push(c))) == join_dot(p).push(c),
{
    let q = p.update(p.len() - 1, p.last().push(c));
    if p.len() == 1 {
    } else {
        assert(q.drop_last() =~= p.drop_last());
        assert(join_dot(q) =~= join_dot(p).push(c));
    }
}

proof fn lemma_split_leading_dot(s: Seq<char>)
    requires
        s.len() > 0,
        s[0] == '.',
    ensures
        split_dot(s).len() >= 2,
        split_dot(s)[0].len() == 0,
    decreases s.len(),
{
    if s.len() == 1 {
        assert(s.drop_last() =~= Seq::<char>::empty());
    } else {
        assert(s.drop_last()[0] == '.');
        lemma_split_leading_dot(s.drop_last());
    }
}

proof fn lemma_dot_prefixes_shape(s: Seq<char>)
    ensures
        forall|j: int| 0 <= j < dot_prefixes(s).len() ==> {
            let k = #[trigger] dot_prefixes(s)[j].len();
            &&& 0 <= k < s.len()
            &&& s[k as int] == '.'
            &&& dot_prefixes(s)[j] == s.take(k as int)
        },
    decreases s.len(),
{
    if s.len() > 0 {
        let t = s.drop_last();
        lemma_dot_prefixes_shape(t);
        assert forall|j: int| 0 <= j < dot_prefixes(s).len() implies {
            let k = #[trigger] dot_prefixes(s)[j].len();
            &&& 0 <= k < s.len()
            &&& s[k as int] == '.'
            &&& dot_prefixes(s)[j] == s.take(k as int)
        } by {
            if j < dot_prefixes(t).len() {
                assert(dot_prefixes(s)[j] == dot_prefixes(t)[j]);
                let k = dot_prefixes(t)[j].len();
                assert(t[k as int] == s[k as int]);
                assert(t.take(k as int) =~= s.take(k as int));
            } else {
                assert(dot_prefixes(s)[j] == t);
                assert(t =~= s.take(t.len() as int));
            }
        }
    }
}

proof fn lemma_count_pieces(s: Seq<char>)
    ensures
        split_dot(s).len() == dot_prefixes(s).len() + 1,
    decreases s.len(),
{
    if s.len() > 0 {
        lemma_count_pieces(s.drop_last());
    }
}

/// Joining the pieces of a code between its dots gives back the code:
/// `from_vec(c.to_vec())` rebuilds `c`.
pub proof fn law_join_of_split(s: Seq<char>)
    ensures
        join_dot(split_dot(s)) == s,
    decreases s.len(),
{
    if s.len() == 0 {
    } else {
        let t = s.drop_last();
        law_join_of_split(t);
        lemma_split_dot_nonempty(t);
        let p = split_dot(t);
        if s.last() == '.' {
            let q = p.push(Seq::<char>::empty());
            assert(q.drop_last() =~= p);
            assert(join_dot(q) =~= s);
        } else {
            lemma_join_push(p, s.last());
            assert(t.push(s.last()) =~= s);
        }
    }
}

/// Splitting dot-free pieces that were joined with dots gives back the pieces:
/// `from_vec(parts)` followed by `to_vec()` returns `parts`.
pub proof fn law_split_of_join(parts: Seq<Seq<char>>)
    requires
        parts.len() >= 1,
        forall|i: int| 0 <= i < parts.len() ==> dot_free(#[trigger] parts[i]),
    ensures
        split_dot(join_dot(parts)) == parts,
    decreases parts.len(),
{
    if parts.len() == 1 {
        lemma_split_single(parts[0]);
        assert(seq![parts[0]] =~= parts);
    } else {
        let init = parts.drop_last();
        assert forall|i: int| 0 <= i < init.len() implies dot_free(#[trigger] init[i]) by {
            assert(init[i] == parts[i]);
        }
        law_split_of_join(init);
        assert(dot_free(parts[parts.len() - 1]));
        lemma_split_dot_then(join_dot(init), parts.last());
        assert(init.push(parts.last()) =~= parts);
    }
}

/// Adding a valid segment to the empty code or to a valid code gives a valid code.
pub proof fn law_push_keeps_valid(s: Seq<char>, code: Seq<char>)
    requires
        s.len() == 0 || valid_dot_code(s),
        valid_code(code),
    ensures
        valid_dot_code(pushed(s, code)),
{
    lemma_valid_code_dot_free(code);
    if s.len() == 0 {
        lemma_split_single(code);
    } else {
        lemma_split_dot_then(s, code);
        let parts = split_dot(pushed(s, code));
        assert forall|i: int| 0 <= i < parts.len() implies valid_code(#[trigger] parts[i]) by {
            if i < split_dot(s).len() {
                assert(parts[i] == split_dot(s)[i]);
            }
        }
    }
}

/// After a segment is added to a non-empty code, the parent is the code as it
/// was and the last segment is the one added; on the empty code the segment
/// becomes the whole code, which has no parent.
pub proof fn law_push_then_parent_and_last(s: Seq<char>, code: Seq<char>)
    requires
        dot_free(code),
    ensures
        s.len() > 0 ==> last_dot(pushed(s, code)) == s.len(),
        s.len() > 0 ==> pushed(s, code).take(last_dot(pushed(s, code))) == s,
        s.len() == 0 ==> last_dot(pushed(s, code)) == -1,
        pushed(s, code).skip(last_dot(pushed(s, code)) + 1) == code,
{
    if s.len() > 0 {
        let b = s + seq!['.'];
        assert(b.drop_last() =~= s);
        assert(last_dot(b) == s.len());
        lemma_last_dot_append_dot_free(b, code);
        assert(pushed(s, code) =~= b + code);
        assert((b + code).take(s.len() as int) =~= s);
        assert((b + code).skip(s.len() as int + 1) =~= code);
    } else {
        lemma_last_dot_append_dot_free(Seq::<char>::empty(), code);
        assert(Seq::<char>::empty() + code =~= code);
        assert(code.skip(0) =~= code);
    }
}

/// Every ancestor of a valid code is an ancestor of it in the sense of
/// `is_ancestor_of`, and a valid code has one ancestor fewer than it has segments.
pub proof fn law_ancestors_are_ancestors(s: Seq<char>)
    requires
        valid_dot_code(s),
    ensures
        forall|j: int| 0 <= j < dot_prefixes(s).len() ==> ancestor_of(#[trigger] dot_prefixes(s)[j], s),
        split_dot(s).len() == dot_prefixes(s).len() + 1,
{
    lemma_dot_prefixes_shape(s);
    lemma_count_pieces(s);
    if s[0] == '.' {
        lemma_split_leading_dot(s);
        assert(valid_code(split_dot(s)[0]));
    }
    assert forall|j: int| 0 <= j < dot_prefixes(s).len() implies ancestor_of(#[trigger] dot_prefixes(s)[j], s) by {
        let k = dot_prefixes(s)[j].len();
        assert(s[k as int] == '.');
        assert(k != 0);
    }
}

/// A non-empty code is its own ancestor.
pub proof fn law_ancestor_reflexive(s: Seq<char>)
    requires
        s.len() > 0,
    ensures
        ancestor_of(s, s),
{
}

/// An ancestor of an ancestor of a code is an ancestor of that code.
pub proof fn law_ancestor_transitive(a: Seq<char>, b: Seq<char>, c: Seq<char>)
    requires
        ancestor_of(a, b),
        ancestor_of(b, c),
    ensures
        ancestor_of(a, c),
{
    if b != a && c != b {
        assert(c.take(a.len() as int) =~= c.take(b.len() as int).take(a.len() as int));
        assert(c[a.len() as int] == c.take(b.len() as int)[a.len() as int]);
    } else if c == b {
    } else {
    }
}

/// The parent of a code is one of its ancestors.
pub proof fn law_parent_is_ancestor(s: Seq<char>)
    requires
        valid_dot_code(s),
        last_dot(s) >= 0,
    ensures
        dot_prefixes(s).contains(s.take(last_dot(s))),
        ancestor_of(s.take(last_dot(s)), s),
    decreases s.len(),
{
    lemma_last_dot_is_prefix(s);
    law_ancestors_are_ancestors(s);
    let j = choose|j: int| 0 <= j < dot_prefixes(s).len() && dot_prefixes(s)[j] == s.take(last_dot(s));
    assert(ancestor_of(dot_prefixes(s)[j], s));
}

proof fn lemma_last_dot_bounds(s: Seq<char>)
    ensures
        -1 <= last_dot(s) < s.len(),
    decreases s.len(),
{
    if s.len() > 0 {
        lemma_last_dot_bounds(s.drop_last());
    }
}

proof fn lemma_last_dot_is_prefix(s: Seq<char>)
    requires
        last_dot(s) >= 0,
    ensures
        exists|j: int| 0 <= j < dot_prefixes(s).len() && dot_prefixes(s)[j] == s.take(last_dot(s)),
    decreases s.len(),
{
    let t = s.drop_last();
    if s.last() == '.' {
        let j = dot_prefixes(t).len() as int;
        assert(dot_prefixes(s)[j] == t);
        assert(t =~= s.take(last_dot(s)));
    } else {
        lemma_last_dot_bounds(t);
        lemma_last_dot_is_prefix(t);
        let j = choose|j: int| 0 <= j < dot_prefixes(t).len() && dot_prefixes(t)[j] == t.take(last_dot(t));
        assert(dot_prefixes(s)[j] == dot_prefixes(t)[j]);
        assert(t.take(last_dot(t)) =~= s.take(last_dot(s)));
    }
}

proof fn lemma_split_count_dots(s: Seq<char>)
    ensures
        split_dot(s).len() == dot_count(s) + 1,
    decreases s.len(),
{
    if s.len() > 0 {
        lemma_split_count_dots(s.drop_last());
    }
}

proof fn lemma_split_pieces_dot_free(s: Seq<char>)
    ensures
        forall|i: int| 0 <= i < split_dot(s).len() ==> dot_free(#[trigger] split_dot(s)[i]),
    decreases s.len(),
{
    if s.len() > 0 {
        let t = s.drop_last();
        lemma_split_pieces_dot_free(t);
        lemma_split_dot_nonempty(t);
        let p = split_dot(t);
        if s.last() != '.' {
            let c = s.last();
            assert forall|i: int| 0 <= i < split_dot(s).len() implies dot_free(#[trigger] split_dot(s)[i]) by {
                if i == p.len() - 1 {
                    let l = p.last().push(c);
                    assert(dot_free(p[p.len() - 1]));
                    assert forall|k: int| 0 <= k < l.len() implies l[k] != '.' by {
                        if k < p.last().len() {
                            assert(l[k] == p[p.len() - 1][k]);
                        }
                    }
                } else {
                    assert(split_dot(s)[i] == p[i]);
                }
            }
        } else {
            assert forall|i: int| 0 <= i < split_dot(s).len() implies dot_free(#[trigger] split_dot(s)[i]) by {
                if i < p.len() {
                    assert(split_dot(s)[i] == p[i]);
                }
            }
        }
    }
}

/// Splitting around one dot: the pieces of `a . b` are the pieces of `a`
/// followed by the pieces of `b`.
proof fn lemma_split_around_dot(a: Seq<char>, b: Seq<char>)
    ensures
        split_dot(a + seq!['.'] + b) == split_dot(a) + split_dot(b),
    decreases b.len(),
{
    let ad = a + seq!['.'];
    assert(ad.drop_last() =~= a);
    if b.len() == 0 {
        assert(ad + b =~= ad);
        assert(split_dot(a) + split_dot(b) =~= split_dot(a).push(Seq::<char>::empty()));
    } else {
        let bt = b.drop_last();
        lemma_split_around_dot(a, bt);
        lemma_split_dot_nonempty(bt);
        assert((ad + b).drop_last() =~= ad + bt);
        assert((ad + b).last() == b.last());
        let pa = split_dot(a);
        let pb = split_dot(bt);
        if b.last() == '.' {
            assert((pa + pb).push(Seq::<char>::empty()) =~= pa + pb.push(Seq::<char>::empty()));
        } else {
            let c = b.last();
            assert((pa + pb).update((pa + pb).len() - 1, (pa + pb).last().push(c)) =~= pa + pb.update(
                pb.len() - 1,
                pb.last().push(c),
            ));
        }
    }
}

/// The text before a dot of a valid code is a valid code whose pieces are the
/// first pieces of the whole.
proof fn lemma_valid_before_dot(s: Seq<char>, k: int)
    requires
        valid_dot_code(s),
        0 <= k < s.len(),
        s[k] == '.',
    ensures
        valid_dot_code(s.take(k)),
        split_dot(s) == split_dot(s.take(k)) + split_dot(s.skip(k + 1)),
        split_dot(s.skip(k + 1)).len() >= 1,
{
    let t = s.take(k);
    let u = s.skip(k + 1);
    assert(t + seq!['.'] + u =~= s);
    lemma_split_around_dot(t, u);
    lemma_split_dot_nonempty(t);
    lemma_split_dot_nonempty(u);
    let pt = split_dot(t);
    assert forall|i: int| 0 <= i < pt.len() implies valid_code(#[trigger] pt[i]) by {
        assert(split_dot(s)[i] == pt[i]);
    }
    if t.len() == 0 {
        assert(pt[0].len() == 0);
    }
}

proof fn lemma_last_dot_facts(s: Seq<char>)
    ensures
        (last_dot(s) < 0) == dot_free(s),
        -1 <= last_dot(s) < s.len(),
        last_dot(s) >= 0 ==> s[last_dot(s)] == '.' && dot_free(s.skip(last_dot(s) + 1)),
    decreases s.len(),
{
    if s.len() > 0 {
        let t = s.drop_last();
        lemma_last_dot_facts(t);
        if s.last() == '.' {
            assert(s[s.len() - 1] == '.');
            assert(s.skip(s.len() as int) =~= Seq::<char>::empty());
        } else {
            if last_dot(t) < 0 {
                assert forall|i: int| 0 <= i < s.len() implies s[i] != '.' by {
                    if i < t.len() {
                        assert(s[i] == t[i]);
                    }
                }
            } else {
                let k = last_dot(t);
                assert(s[k] == t[k]);
                assert(!dot_free(s)) by {
                    assert(s[k] == '.');
                }
                let su = s.skip(k + 1);
                let tu = t.skip(k + 1);
                assert(su =~= tu.push(s.last()));
                assert forall|i: int| 0 <= i < su.len() implies su[i] != '.' by {
                    if i < tu.len() {
                        assert(su[i] == tu[i]);
                    }
                }
            }
        }
    }
}

proof fn lemma_prefixes_of_prefix(s: Seq<char>, j: int)
    requires
        0 <= j < dot_prefixes(s).len(),
    ensures
        dot_prefixes(dot_prefixes(s)[j]) == dot_prefixes(s).take(j),
    decreases s.len(),
{
    let t = s.drop_last();
    if j < dot_prefixes(t).len() {
        lemma_prefixes_of_prefix(t, j);
        assert(dot_prefixes(s)[j] == dot_prefixes(t)[j]);
        assert(dot_prefixes(s).take(j) =~= dot_prefixes(t).take(j));
    } else {
        assert(dot_prefixes(s)[j] == t);
        assert(dot_prefixes(s).take(j) =~= dot_prefixes(t));
    }
}

proof fn lemma_prefixes_contain(s: Seq<char>, k: int)
    requires
        0 <= k < s.len(),
        s[k] == '.',
    ensures
        dot_prefixes(s).contains(s.take(k)),
    decreases s.len(),
{
    let t = s.drop_last();
    if k == s.len() - 1 {
        assert(t =~= s.take(k));
        assert(dot_prefixes(s)[dot_prefixes(t).len() as int] == t);
    } else {
        assert(t[k] == s[k]);
        lemma_prefixes_contain(t, k);
        assert(t.take(k) =~= s.take(k));
        let i = choose|i: int| 0 <= i < dot_prefixes(t).len() && dot_prefixes(t)[i] == t.take(k);
        assert(dot_prefixes(s)[i] == dot_prefixes(t)[i]);
    }
}

/// The segment count is 0 exactly for the empty text; otherwise it is one
/// more than the number of dots, the count of pieces between dots.
pub proof fn law_segment_count(s: Seq<char>)
    ensures
        (segment_count(s) == 0) == (s.len() == 0),
        s.len() > 0 ==> segment_count(s) == dot_count(s) + 1,
        s.len() > 0 ==> segment_count(s) == split_dot(s).len(),
{
    lemma_split_count_dots(s);
}

/// Adding a valid segment adds one segment, and keeps a valid or empty code
/// valid.
pub proof fn law_push_adds_segment(s: Seq<char>, code: Seq<char>)
    requires
        valid_code(code),
    ensures
        segment_count(pushed(s, code)) == segment_count(s) + 1,
        (s.len() == 0 || valid_dot_code(s)) ==> valid_dot_code(pushed(s, code)),
{
    lemma_valid_code_dot_free(code);
    if s.len() == 0 {
        lemma_split_single(code);
    } else {
        lemma_split_dot_then(s, code);
    }
    if s.len() == 0 || valid_dot_code(s) {
        law_push_keeps_valid(s, code);
    }
}

/// A valid code is non-empty, counts as many segments as it has pieces, each
/// piece a valid dot-free segment, and its pieces join back into it.
pub proof fn law_valid_code_segments(s: Seq<char>)
    requires
        valid_dot_code(s),
    ensures
        s.len() > 0,
        segment_count(s) >= 1,
        segment_count(s) == split_dot(s).len(),
        forall|i: int| 0 <= i < split_dot(s).len() ==> valid_code(#[trigger] split_dot(s)[i]) && dot_free(split_dot(s)[i]),
        join_dot(split_dot(s)) == s,
{
    lemma_split_dot_nonempty(s);
    lemma_split_pieces_dot_free(s);
    law_join_of_split(s);
}

/// A code has a parent exactly when it holds a dot. Then the code is its
/// parent, a dot, and a dot-free last segment; the parent of a valid code is
/// valid and has one segment fewer.
pub proof fn law_parent_shape(s: Seq<char>)
    ensures
        (last_dot(s) < 0) == dot_free(s),
        last_dot(s) >= 0 ==> s == s.take(last_dot(s)) + seq!['.'] + s.skip(last_dot(s) + 1),
        last_dot(s) >= 0 ==> dot_free(s.skip(last_dot(s) + 1)),
        last_dot(s) >= 0 && valid_dot_code(s) ==> valid_dot_code(s.take(last_dot(s)))
            && segment_count(s.take(last_dot(s))) + 1 == segment_count(s),
{
    lemma_last_dot_facts(s);
    let k = last_dot(s);
    if k >= 0 {
        assert(s.take(k) + seq!['.'] + s.skip(k + 1) =~= s);
        if valid_dot_code(s) {
            lemma_valid_before_dot(s, k);
            lemma_split_single(s.skip(k + 1));
        }
    }
}

/// The ancestors of a valid code are its proper ancestors, shortest first:
/// one fewer than its segments, the one at index `j` having `j + 1` segments,
/// each valid and an ancestor but not the code itself; and every proper
/// ancestor of the code is among them.
pub proof fn law_ancestors_shape(s: Seq<char>)
    requires
        valid_dot_code(s),
    ensures
        dot_prefixes(s).len() + 1 == segment_count(s),
        forall|j: int| 0 <= j < dot_prefixes(s).len() ==> {
            &&& segment_count(#[trigger] dot_prefixes(s)[j]) == j + 1
            &&& valid_dot_code(dot_prefixes(s)[j])
            &&& ancestor_of(dot_prefixes(s)[j], s)
            &&& dot_prefixes(s)[j] != s
        },
        forall|q: Seq<char>| ancestor_of(q, s) && q != s ==> #[trigger] dot_prefixes(s).contains(q),
{
    law_ancestors_are_ancestors(s);
    lemma_dot_prefixes_shape(s);
    assert forall|j: int| 0 <= j < dot_prefixes(s).len() implies {
        &&& segment_count(#[trigger] dot_prefixes(s)[j]) == j + 1
        &&& valid_dot_code(dot_prefixes(s)[j])
        &&& ancestor_of(dot_prefixes(s)[j], s)
        &&& dot_prefixes(s)[j] != s
    } by {
        let p = dot_prefixes(s)[j];
        let k = p.len() as int;
        lemma_valid_before_dot(s, k);
        lemma_prefixes_of_prefix(s, j);
        lemma_count_pieces(p);
        assert(p.len() < s.len());
    }
    assert forall|q: Seq<char>| ancestor_of(q, s) && q != s implies #[trigger] dot_prefixes(s).contains(q) by {
        lemma_prefixes_contain(s, q.len() as int);
    }
}

/// The pieces of a code join back into it, none holds a dot, and there are
/// as many as its segments (one empty piece for the empty code).
pub proof fn law_pieces_shape(s: Seq<char>)
    ensures
        join_dot(split_dot(s)) == s,
        forall|i: int| 0 <= i < split_dot(s).len() ==> dot_free(#[trigger] split_dot(s)[i]),
        split_dot(s).len() == if s.len() == 0 { 1 } else { segment_count(s) },
{
    law_join_of_split(s);
    lemma_split_pieces_dot_free(s);
}

/// A character allowed in a permission code: an upper-case ASCII letter,
/// `_`, or the dot between segments.
pub open spec fn code_text_char(c: char) -> bool {
    ('A' <= c && c <= 'Z') || c == '_' || c == '.'
}

proof fn lemma_split_covers(s: Seq<char>)
    ensures
        forall|i: int| 0 <= i < s.len() && s[i] != '.' ==> exists|j: int, k: int|
            0 <= j < split_dot(s).len() && 0 <= k < split_dot(s)[j].len() && #[trigger] s[i] == split_dot(s)[j][k],
    decreases s.len(),
{
    if s.len() > 0 {
        let t = s.drop_last();
        lemma_split_covers(t);
        lemma_split_dot_nonempty(t);
        let p = split_dot(t);
        let q = split_dot(s);
        assert forall|i: int| 0 <= i < s.len() && s[i] != '.' implies exists|j: int, k: int|
            0 <= j < q.len() && 0 <= k < q[j].len() && #[trigger] s[i] == q[j][k] by {
            if i == s.len() - 1 {
                let j = p.len() - 1;
                assert(q[j] == p.last().push(s.last()));
                assert(q[j][p.last().len() as int] == s[i]);
            } else {
                assert(t[i] == s[i]);
                let (j, k) = choose|j: int, k: int| 0 <= j < p.len() && 0 <= k < p[j].len() && #[trigger] t[i] == p[j][k];
                if s.last() == '.' {
                    assert(q[j] == p[j]);
                } else if j < p.len() - 1 {
                    assert(q[j] == p[j]);
                } else {
                    assert(q[j] == p.last().push(s.last()));
                    assert(q[j][k] == p[j][k]);
                }
            }
        }
    }
}

/// A segment is valid exactly when it is non-empty and made only of
/// upper-case ASCII letters and `_`: digits, lower-case letters, dots and any
/// other character are refused.
pub proof fn law_segment_alphabet(s: Seq<char>)
    ensures
        valid_code(s) <==> (s.len() > 0 && forall|i: int| 0 <= i < s.len() ==> ('A' <= #[trigger] s[i] && s[i] <= 'Z') || s[i] == '_'),
{
}

/// Every character of a valid code is an upper-case ASCII letter, `_` or a
/// dot: a text holding a digit, a lower-case letter or any other character is
/// never a valid code.
pub proof fn law_code_alphabet(s: Seq<char>)
    requires
        valid_dot_code(s),
    ensures
        forall|i: int| 0 <= i < s.len() ==> code_text_char(#[trigger] s[i]),
{
    lemma_split_covers(s);
    assert forall|i: int| 0 <= i < s.len() implies code_text_char(#[trigger] s[i]) by {
        if s[i] != '.' {
            let (j, k) = choose|j: int, k: int|
                0 <= j < split_dot(s).len() && 0 <= k < split_dot(s)[j].len() && #[trigger] s[i] == split_dot(s)[j][k];
            assert(valid_code(split_dot(s)[j]));
            assert(is_code_char(split_dot(s)[j][k]));
        }
    }
}

} // verus!
