//! Actor binary interface: methods, their selectors and their kinds.

use frc42_dispatch::hash::MethodResolver;
use vstd::prelude::*;

verus! {

/// Method number used to call an actor method.
pub type MethodNum = u64;

/// Whether `c` has the Unicode `Uppercase` property.
pub uninterp spec fn unicode_uppercase(c: char) -> bool;

/// Whether `c` is numeric in the sense of Unicode's general categories `Nd`, `Nl` and `No`.
pub uninterp spec fn unicode_numeric(c: char) -> bool;

pub open spec fn ascii_upper(c: char) -> bool {
    'A' <= c <= 'Z'
}

pub open spec fn ascii_lower(c: char) -> bool {
    'a' <= c <= 'z'
}

pub open spec fn ascii_digit(c: char) -> bool {
    '0' <= c <= '9'
}

/// Relies on `char::is_uppercase`: ASCII capitals are uppercase, ASCII small letters are not.
#[verifier::external_body]
fn is_uppercase(c: char) -> (r: bool)
    ensures
        r == unicode_uppercase(c),
        ascii_upper(c) ==> r,
        (ascii_lower(c) || ascii_digit(c)) ==> !r,
{
    c.is_uppercase()
}

/// Relies on `char::is_numeric`: ASCII digits are numeric, ASCII letters are not.
#[verifier::external_body]
fn is_numeric(c: char) -> (r: bool)
    ensures
        r == unicode_numeric(c),
        ascii_digit(c) ==> r,
        (ascii_lower(c) || ascii_upper(c)) ==> !r,
{
    c.is_numeric()
}

/// A character that opens a new word of a PascalCase name.
pub open spec fn opens_word(c: char) -> bool {
    unicode_uppercase(c) || unicode_numeric(c)
}

/// The words of `s[beg..]`, where a word starts at `beg` and `i` is the next
/// character to look at.
pub open spec fn words_from(s: Seq<char>, beg: int, i: int) -> Seq<Seq<char>>
    decreases s.len() - i,
{
    if i >= s.len() {
        seq![s.subrange(beg, s.len() as int)]
    } else if opens_word(s[i]) {
        seq![s.subrange(beg, i)] + words_from(s, i, i + 1)
    } else {
        words_from(s, beg, i + 1)
    }
}

/// The words of a PascalCase name: a word begins at the first character and at
/// every later uppercase or numeric character. A name that does not begin with
/// an uppercase character has no words.
pub open spec fn pascal_words(s: Seq<char>) -> Seq<Seq<char>> {
    if s.len() == 0 || !unicode_uppercase(s[0]) {
        Seq::empty()
    } else {
        words_from(s, 0, 1)
    }
}

pub open spec fn string_views(v: Seq<String>) -> Seq<Seq<char>> {
    v.map_values(|w: String| w@)
}

/// Split a PascalCase string into its words. A string that is not PascalCase
/// gives no words.
pub fn pascal_case_split(s: &str) -> (r: Vec<String>)
    ensures
        string_views(r@) == pascal_words(s@),
{
    let mut split: Vec<String> = Vec::new();
    let n = s.unicode_len();
    if n == 0 {
        return split;
    }
    if !is_uppercase(s.get_char(0)) {
        return split;
    }
    let mut beg: usize = 0;
    let mut i: usize = 1;
    while i < n
        invariant
            n == s@.len(),
            0 <= beg < i <= n,
            n > 0,
            unicode_uppercase(s@[0]),
            string_views(split@) + words_from(s@, beg as int, i as int) == words_from(s@, 0, 1),
        decreases n - i,
    {
        let c = s.get_char(i);
        let is_open = is_uppercase(c) || is_numeric(c);
        if is_open {
            let word = s.substring_char(beg, i).to_string();
            let ghost before = split@;
            split.push(word);
            proof {
                assert(string_views(split@) =~= string_views(before) + seq![s@.subrange(
                    beg as int,
                    i as int,
                )]);
                assert(string_views(split@) + words_from(s@, i as int, i + 1) =~= string_views(
                    before,
                ) + words_from(s@, beg as int, i as int));
            }
            beg = i;
        }
        i = i + 1;
    }
    let last = s.substring_char(beg, n).to_string();
    let ghost before = split@;
    split.push(last);
    proof {
        assert(string_views(split@) =~= string_views(before) + words_from(s@, beg as int, n as int));
    }
    split
}


/// Kind of an actor method, read from the words of its name.
#[derive(Clone, Copy, Debug, PartialEq, Eq, Structural, PartialOrd, Ord, Hash)]
pub enum MethodType {
    Constructor,
    Entrypoint,
    Setup,
    Test,
    TestFail,
}

/// The kind that a method named by `words` has.
pub open spec fn kind_of_words(words: Seq<Seq<char>>) -> MethodType {
    if words.len() >= 1 && words[0] == "Constructor"@ {
        MethodType::Constructor
    } else if words.len() >= 1 && words[0] == "Setup"@ {
        MethodType::Setup
    } else if words.len() >= 2 && words[0] == "Test"@ && words[1] == "Fail"@ {
        MethodType::TestFail
    } else if words.len() >= 1 && words[0] == "Test"@ {
        MethodType::Test
    } else {
        MethodType::Entrypoint
    }
}

/// The method number that FRC-0042 gives `name` with a blake2b hasher, or
/// `None` where the name is refused or no number can be drawn from its digest.
pub uninterp spec fn frc42_method_number(name: Seq<char>) -> Option<u64>;

pub open spec fn frc42_name_char(c: char) -> bool {
    ascii_upper(c) || ascii_lower(c) || ascii_digit(c) || c == '_'
}

/// The names that FRC-0042 accepts: ASCII letters, digits and `_`, starting
/// with a capital letter or `_`.
pub open spec fn frc42_name_ok(name: Seq<char>) -> bool {
    &&& name.len() > 0
    &&& (ascii_upper(name[0]) || name[0] == '_')
    &&& forall|i: int| 0 <= i < name.len() ==> frc42_name_char(#[trigger] name[i])
}

/// Digest used to derive method numbers.
pub struct Blake2bHasher {}

impl frc42_dispatch::hash::Hasher for Blake2bHasher {
    /// Relies on `blake2b_simd::blake2b`: the 64-byte blake2b digest of `bytes`.
    #[verifier::external_body]
    fn hash(&self, bytes: &[u8]) -> Vec<u8> {
        blake2b_simd::blake2b(bytes).as_bytes().to_vec()
    }
}

/// Relies on frc42_dispatch's `MethodResolver::method_number`: it refuses names
/// outside the FRC-0042 convention, maps `Constructor` to 1 and every other
/// accepted name to a number of at least 2^24 read from its digest.
#[verifier::external_body]
fn frc42_number(name: &str) -> (r: Option<u64>)
    ensures
        r == frc42_method_number(name@),
        !frc42_name_ok(name@) ==> r is None,
        name@ == "Constructor"@ ==> r == Some(1u64),
        r matches Some(n) ==> (name@ == "Constructor"@ || n >= 0x100_0000),
{
    MethodResolver::new(Blake2bHasher {}).method_number(name).ok()
}

/// Errors of method and interface handling.
#[derive(Clone, Debug, PartialEq, Eq)]
pub enum AbiError {
    /// No method number can be derived from this name.
    MethodNumberGeneration { name: String },
    /// The interface declares two constructors or two set-up methods.
    DuplicateLifecycleMethod,
    /// The bytes do not encode an interface.
    Malformed,
    /// A name read from an encoded interface has no method number.
    UndecodableMethod { name: String },
}

impl AbiError {
    /// A sentence that describes the error.
    pub fn message(&self) -> (r: String)
        ensures
            r@ == match *self {
                AbiError::MethodNumberGeneration { name } => "Could not generate method number for `"@
                    + name@ + "`"@,
                AbiError::DuplicateLifecycleMethod => "Abi can only have one Constructor and one SetUp function"@,
                AbiError::Malformed => "Could not decode the Abi"@,
                AbiError::UndecodableMethod { name } => "Couldn't deserialize method: "@ + name@,
            },
    {
        match self {
            AbiError::MethodNumberGeneration { name } => {
                let mut m = String::from_str("Could not generate method number for `");
                m.append(name.as_str());
                m.append("`");
                m
            },
            AbiError::DuplicateLifecycleMethod => String::from_str(
                "Abi can only have one Constructor and one SetUp function",
            ),
            AbiError::Malformed => String::from_str("Could not decode the Abi"),
            AbiError::UndecodableMethod { name } => {
                let mut m = String::from_str("Couldn't deserialize method: ");
                m.append(name.as_str());
                m
            },
        }
    }
}

/// Derive the FRC-0042 method number of `name`.
pub fn derive_method_num(name: &str) -> (r: Result<MethodNum, AbiError>)
    ensures
        match frc42_method_number(name@) {
            Some(n) => r == Ok::<MethodNum, AbiError>(n),
            None => r matches Err(AbiError::MethodNumberGeneration { name: e }) && e@ == name@,
        },
{
    match frc42_number(name) {
        Some(n) => Ok(n),
        None => Err(AbiError::MethodNumberGeneration { name: name.to_string() }),
    }
}

/// A method exposed by an actor.
#[derive(Clone, Debug, PartialEq, Eq, PartialOrd, Ord, Hash)]
pub struct Method {
    number: MethodNum,
    name: String,
    kind: MethodType,
}

/// The method that a name describes, where the name has a method number.
pub open spec fn method_of_name(name: Seq<char>) -> Option<(MethodNum, MethodType)> {
    match frc42_method_number(name) {
        Some(n) => Some((n, kind_of_words(pascal_words(name)))),
        None => None,
    }
}

impl Method {
    pub closed spec fn spec_number(&self) -> MethodNum {
        self.number
    }

    pub closed spec fn spec_name(&self) -> Seq<char> {
        self.name@
    }

    pub closed spec fn spec_kind(&self) -> MethodType {
        self.kind
    }

    /// Whether this method is the one that `name` describes.
    pub open spec fn described_by(&self, name: Seq<char>) -> bool {
        &&& method_of_name(name) == Some((self.spec_number(), self.spec_kind()))
        &&& self.spec_name() == name
    }

    /// Get the method number.
    pub fn number(&self) -> (r: MethodNum)
        ensures
            r == self.spec_number(),
    {
        self.number
    }

    /// Get the method name.
    pub fn name(&self) -> (r: &str)
        ensures
            r@ == self.spec_name(),
    {
        self.name.as_str()
    }

    /// Get the method kind.
    pub fn kind(&self) -> (r: MethodType)
        ensures
            r == self.spec_kind(),
    {
        self.kind
    }

    /// Build the method that `name` describes: its number is the FRC-0042
    /// number of the name, its kind comes from the name's words.
    pub fn new_from_name(name: &str) -> (r: Result<Method, AbiError>)
        ensures
            match method_of_name(name@) {
                Some(_) => r matches Ok(m) && m.described_by(name@),
                None => r matches Err(AbiError::MethodNumberGeneration { name: e }) && e@ == name@,
            },
    {
        let number = derive_method_num(name)?;
        let words = pascal_case_split(name);
        let kind = kind_of_split(&words);
        Ok(Method { number, name: name.to_string(), kind })
    }
}

fn word_is(words: &Vec<String>, i: usize, w: &str) -> (r: bool)
    ensures
        r == (i < words@.len() && words@[i as int]@ == w@),
{
    if i < words.len() {
        let lit = String::from_str(w);
        words[i] == lit
    } else {
        false
    }
}

fn kind_of_split(words: &Vec<String>) -> (r: MethodType)
    ensures
        r == kind_of_words(string_views(words@)),
{
    if word_is(words, 0, "Constructor") {
        MethodType::Constructor
    } else if word_is(words, 0, "Setup") {
        MethodType::Setup
    } else if word_is(words, 0, "Test") && word_is(words, 1, "Fail") {
        MethodType::TestFail
    } else if word_is(words, 0, "Test") {
        MethodType::Test
    } else {
        MethodType::Entrypoint
    }
}


/// The methods that an actor exposes: at most one constructor, at most one
/// set-up method, and the others in declaration order.
#[derive(Clone, Debug, Default, PartialEq, Eq, PartialOrd, Ord, Hash)]
pub struct Abi {
    pub constructor: Option<Method>,
    pub set_up: Option<Method>,
    pub methods: Vec<Method>,
}

/// An interface as values: constructor, set-up method, other methods.
pub type AbiParts = (Option<Method>, Option<Method>, Seq<Method>);

/// Sort declared methods into an interface; `None` where a second constructor
/// or a second set-up method is declared.
pub open spec fn assemble(ms: Seq<Method>) -> Option<AbiParts>
    decreases ms.len(),
{
    if ms.len() == 0 {
        Some((None, None, Seq::empty()))
    } else {
        match assemble(ms.drop_last()) {
            None => None,
            Some((c, s, rest)) => {
                let m = ms.last();
                if m.spec_kind() == MethodType::Constructor {
                    if c is Some { None } else { Some((Some(m), s, rest)) }
                } else if m.spec_kind() == MethodType::Setup {
                    if s is Some { None } else { Some((c, Some(m), rest)) }
                } else {
                    Some((c, s, rest.push(m)))
                }
            },
        }
    }
}

/// The names under which an interface is written: constructor, set-up method,
/// then the other methods.
pub open spec fn abi_names(c: Option<Method>, s: Option<Method>, ms: Seq<Method>) -> Seq<Seq<char>> {
    let cn: Seq<Seq<char>> = match c { Some(m) => seq![m.spec_name()], None => Seq::empty() };
    let sn: Seq<Seq<char>> = match s { Some(m) => seq![m.spec_name()], None => Seq::empty() };
    cn + sn + ms.map_values(|m: Method| m.spec_name())
}

/// The IPLD CBOR decoding of `bytes` as a one-element list holding a list of
/// one-element lists of strings, read as the list of those strings.
pub uninterp spec fn cbor_name_lists(bytes: Seq<u8>) -> Option<Seq<Seq<char>>>;

/// The IPLD CBOR encoding of `names` as a one-element list holding a list of
/// one-element lists of strings.
pub uninterp spec fn cbor_of_name_lists(names: Seq<Seq<char>>) -> Option<Seq<u8>>;

/// Relies on `fvm_ipld_encoding::from_slice`, decoding nested CBOR lists.
#[verifier::external_body]
fn decode_name_lists(bytes: &[u8]) -> (r: Option<Vec<String>>)
    ensures
        r matches Some(v) ==> cbor_name_lists(bytes@) == Some(string_views(v@)),
        r is None ==> cbor_name_lists(bytes@) is None,
{
    let decoded: (Vec<(String,)>,) = fvm_ipld_encoding::from_slice(bytes).ok()?;
    Some(decoded.0.into_iter().map(|n| n.0).collect())
}

/// Relies on `fvm_ipld_encoding::to_vec`, encoding nested CBOR lists.
#[verifier::external_body]
fn encode_name_lists(names: Vec<String>) -> (r: Option<Vec<u8>>)
    ensures
        r matches Some(v) ==> cbor_of_name_lists(string_views(names@)) == Some(v@),
        r is None ==> cbor_of_name_lists(string_views(names@)) is None,
{
    let lists: Vec<(String,)> = names.into_iter().map(|n| (n,)).collect();
    fvm_ipld_encoding::to_vec(&(lists,)).ok()
}

/// Write method names in the encoding of an interface: a list of the names,
/// each in a list of its own.
pub fn encode_method_names(names: Vec<String>) -> (r: Option<Vec<u8>>)
    ensures
        r matches Some(v) ==> cbor_of_name_lists(string_views(names@)) == Some(v@),
        r is None ==> cbor_of_name_lists(string_views(names@)) is None,
{
    encode_name_lists(names)
}

/// The interface read from the declared methods `ms`, where each method is the
/// one that the corresponding name of `names` describes.
pub open spec fn abi_of_names(names: Seq<Seq<char>>, a: Abi) -> bool {
    exists|ms: Seq<Method>|
        #![trigger assemble(ms)]
        ms.len() == names.len() && (forall|i: int| 0 <= i < ms.len() ==> (#[trigger] ms[i]).described_by(names[i]))
            && assemble(ms) == Some((a.constructor, a.set_up, a.methods@))
}

/// Whether `name` is one of `names` and has no method number.
pub open spec fn has_unnumbered(names: Seq<Seq<char>>, name: Seq<char>) -> bool {
    exists|i: int| 0 <= i < names.len() && #[trigger] names[i] == name && method_of_name(name) is None
}

/// Whether each of `names` has a method number.
pub open spec fn all_named(names: Seq<Seq<char>>) -> bool {
    forall|i: int| 0 <= i < names.len() ==> (#[trigger] method_of_name(names[i])) is Some
}

impl Abi {
    /// Get the constructor, if the interface declares one.
    pub fn constructor(&self) -> (r: Option<&Method>)
        ensures
            match self.constructor {
                Some(c) => r matches Some(m) && *m == c,
                None => r is None,
            },
    {
        self.constructor.as_ref()
    }

    /// Get the set-up method, if the interface declares one.
    pub fn set_up(&self) -> (r: Option<&Method>)
        ensures
            match self.set_up {
                Some(c) => r matches Some(m) && *m == c,
                None => r is None,
            },
    {
        self.set_up.as_ref()
    }

    /// Get the methods other than the constructor and the set-up method.
    pub fn methods(&self) -> (r: &[Method])
        ensures
            r@ == self.methods@,
    {
        self.methods.as_slice()
    }

    /// Sort declared methods into an interface. Fails where two constructors or
    /// two set-up methods are declared.
    pub fn from_methods(ms: Vec<Method>) -> (r: Result<Abi, AbiError>)
        ensures
            match assemble(ms@) {
                Some((c, s, rest)) => r matches Ok(a) && a.constructor == c && a.set_up == s
                    && a.methods@ == rest,
                None => r == Err::<Abi, AbiError>(AbiError::DuplicateLifecycleMethod),
            },
    {
        let mut constructor: Option<Method> = None;
        let mut set_up: Option<Method> = None;
        let mut methods: Vec<Method> = Vec::new();
        let mut i: usize = 0;
        while i < ms.len()
            invariant
                0 <= i <= ms@.len(),
                assemble(ms@.subrange(0, i as int)) == Some((constructor, set_up, methods@)),
            decreases ms@.len() - i,
        {
            let m = ms[i].clone_method();
            proof {
                assert(ms@.subrange(0, i + 1).drop_last() =~= ms@.subrange(0, i as int));
            }
            match m.kind {
                MethodType::Constructor => {
                    if constructor.is_some() {
                        proof { lemma_assemble_fails_on(ms@, i as int); }
                        return Err(AbiError::DuplicateLifecycleMethod);
                    }
                    constructor = Some(m);
                },
                MethodType::Setup => {
                    if set_up.is_some() {
                        proof { lemma_assemble_fails_on(ms@, i as int); }
                        return Err(AbiError::DuplicateLifecycleMethod);
                    }
                    set_up = Some(m);
                },
                _ => {
                    methods.push(m);
                },
            }
            i = i + 1;
        }
        proof {
            assert(ms@.subrange(0, ms@.len() as int) =~= ms@);
        }
        Ok(Abi { constructor, set_up, methods })
    }

    /// Read an interface from its IPLD CBOR encoding: a list of the method
    /// names, each in a list of its own. Fails where the bytes hold no such
    /// list, where a name has no method number, or where two constructors or
    /// two set-up methods are declared.
    pub fn decode(bytes: &[u8]) -> (r: Result<Abi, AbiError>)
        ensures
            match cbor_name_lists(bytes@) {
                None => r == Err::<Abi, AbiError>(AbiError::Malformed),
                Some(names) => match r {
                    Ok(a) => abi_of_names(names, a),
                    Err(AbiError::UndecodableMethod { name }) => !all_named(names)
                        && has_unnumbered(names, name@),
                    Err(AbiError::DuplicateLifecycleMethod) => all_named(names)
                        && !exists|a: Abi| abi_of_names(names, a),
                    Err(_) => false,
                },
            },
    {
        let names = match decode_name_lists(bytes) {
            Some(n) => n,
            None => return Err(AbiError::Malformed),
        };
        let ghost nv = string_views(names@);
        let mut ms: Vec<Method> = Vec::new();
        let mut i: usize = 0;
        while i < names.len()
            invariant
                0 <= i <= names@.len(),
                nv == string_views(names@),
                cbor_name_lists(bytes@) == Some(nv),
                ms@.len() == i,
                forall|j: int| 0 <= j < i ==> (#[trigger] ms@[j]).described_by(nv[j]),
                forall|j: int| 0 <= j < i ==> (#[trigger] method_of_name(nv[j])) is Some,
            decreases names@.len() - i,
        {
            let m = match Method::new_from_name(names[i].as_str()) {
                Ok(m) => m,
                Err(_) => {
                    proof {
                        assert(nv[i as int] == names@[i as int]@);
                        assert(method_of_name(nv[i as int]) is None);
                        assert(!all_named(nv));
                        assert(has_unnumbered(nv, names@[i as int]@));
                    }
                    return Err(AbiError::UndecodableMethod { name: names[i].clone() });
                },
            };
            ms.push(m);
            i = i + 1;
        }
        let ghost msv = ms@;
        let r = Abi::from_methods(ms);
        proof {
            if r is Err {
                assert forall|a: Abi| !abi_of_names(nv, a) by {
                    if abi_of_names(nv, a) {
                        let ms2 = choose|ms2: Seq<Method>|
                            #![trigger assemble(ms2)]
                            ms2.len() == nv.len() && (forall|i: int|
                                0 <= i < ms2.len() ==> (#[trigger] ms2[i]).described_by(nv[i]))
                                && assemble(ms2) == Some((a.constructor, a.set_up, a.methods@));
                        lemma_assemble_kinds(msv, ms2);
                    }
                }
            }
        }
        r
    }

    /// The names of the interface's methods: constructor, set-up method, then
    /// the others in declaration order.
    pub fn names(&self) -> (r: Vec<String>)
        ensures
            string_views(r@) == abi_names(self.constructor, self.set_up, self.methods@),
    {
        let mut names: Vec<String> = Vec::new();
        if let Some(c) = &self.constructor {
            names.push(c.name.clone());
        }
        if let Some(s) = &self.set_up {
            names.push(s.name.clone());
        }
        let ghost head = string_views(names@);
        let mut i: usize = 0;
        while i < self.methods.len()
            invariant
                0 <= i <= self.methods@.len(),
                string_views(names@) == head + self.methods@.subrange(0, i as int).map_values(
                    |m: Method| m.spec_name(),
                ),
            decreases self.methods@.len() - i,
        {
            let ghost before = string_views(names@);
            names.push(self.methods[i].name.clone());
            proof {
                assert(string_views(names@) =~= before.push(self.methods@[i as int].spec_name()));
                assert(self.methods@.subrange(0, i + 1).map_values(|m: Method| m.spec_name())
                    =~= self.methods@.subrange(0, i as int).map_values(|m: Method| m.spec_name()).push(
                    self.methods@[i as int].spec_name(),
                ));
                assert(string_views(names@) =~= head + self.methods@.subrange(0, i + 1).map_values(
                    |m: Method| m.spec_name(),
                ));
            }
            i = i + 1;
        }
        proof {
            assert(self.methods@.subrange(0, self.methods@.len() as int) =~= self.methods@);
            assert(string_views(names@) =~= abi_names(self.constructor, self.set_up, self.methods@));
        }
        names
    }

    /// Write the interface in its IPLD CBOR encoding: a list of the method
    /// names, each in a list of its own.
    pub fn encode(&self) -> (r: Option<Vec<u8>>)
        ensures
            r matches Some(v) ==> cbor_of_name_lists(abi_names(self.constructor, self.set_up, self.methods@)) == Some(v@),
            r is None ==> cbor_of_name_lists(abi_names(self.constructor, self.set_up, self.methods@)) is None,
    {
        encode_method_names(self.names())
    }
}

impl Abi {
    /// Whether `o` declares the same methods.
    pub open spec fn equiv(self, o: Abi) -> bool {
        &&& self.constructor == o.constructor
        &&& self.set_up == o.set_up
        &&& self.methods@ == o.methods@
    }

    /// A copy of the interface.
    pub fn clone_abi(&self) -> (r: Abi)
        ensures
            r.equiv(*self),
    {
        let constructor = match &self.constructor {
            Some(m) => Some(m.clone_method()),
            None => None,
        };
        let set_up = match &self.set_up {
            Some(m) => Some(m.clone_method()),
            None => None,
        };
        let mut methods: Vec<Method> = Vec::new();
        let mut i: usize = 0;
        while i < self.methods.len()
            invariant
                0 <= i <= self.methods@.len(),
                methods@ == self.methods@.subrange(0, i as int),
            decreases self.methods@.len() - i,
        {
            methods.push(self.methods[i].clone_method());
            proof {
                assert(methods@ =~= self.methods@.subrange(0, i + 1));
            }
            i = i + 1;
        }
        proof {
            assert(methods@ =~= self.methods@);
        }
        Abi { constructor, set_up, methods }
    }
}

impl Method {
    /// A copy of the method.
    pub fn clone_method(&self) -> (r: Method)
        ensures
            r == *self,
    {
        Method { number: self.number, name: self.name.clone(), kind: self.kind }
    }
}

proof fn lemma_assemble_fails_on(ms: Seq<Method>, i: int)
    requires
        0 <= i < ms.len(),
        assemble(ms.subrange(0, i)) matches Some((c, s, _)) && (
            (ms[i].spec_kind() == MethodType::Constructor && c is Some)
            || (ms[i].spec_kind() == MethodType::Setup && s is Some)),
    ensures
        assemble(ms) is None,
    decreases ms.len() - i,
{
    assert(ms.subrange(0, i + 1).drop_last() =~= ms.subrange(0, i));
    lemma_assemble_none_extends(ms, i + 1);
}

proof fn lemma_assemble_none_extends(ms: Seq<Method>, k: int)
    requires
        0 <= k <= ms.len(),
        assemble(ms.subrange(0, k)) is None,
    ensures
        assemble(ms) is None,
    decreases ms.len() - k,
{
    if k == ms.len() {
        assert(ms.subrange(0, k) =~= ms);
    } else {
        assert(ms.subrange(0, k + 1).drop_last() =~= ms.subrange(0, k));
        lemma_assemble_none_extends(ms, k + 1);
    }
}

/// Whether sorting succeeds depends on the methods' kinds alone.
proof fn lemma_assemble_kinds(a: Seq<Method>, b: Seq<Method>)
    requires
        a.len() == b.len(),
        forall|i: int| 0 <= i < a.len() ==> a[i].spec_kind() == b[i].spec_kind(),
    ensures
        (assemble(a) is Some) == (assemble(b) is Some),
        assemble(a) matches Some((c1, s1, _)) ==> assemble(b) matches Some((c2, s2, _)) && (c1 is Some) == (c2 is Some) && (s1 is Some) == (s2 is Some),
    decreases a.len(),
{
    if a.len() > 0 {
        lemma_assemble_kinds(a.drop_last(), b.drop_last());
    }
}

} // verus!
