//! The data model: paths, values and the unit made of both.

use crate::text::{
    decimal, digits_from, is_digit, is_sign, spells, i64_of_text, i64_to_string, is_float_literal, is_float_text,
    lemma_decimal_is_read_back, parse_i64, parse_u64, same_text, signed_decimal, u64_of_text,
    u64_to_string,
};
use vstd::prelude::*;
use vstd::string::*;
use vstd::utf8::{decode_utf8, valid_utf8};

verus! {

/// The separator that opens and closes every stored path.
pub open spec fn dot() -> Seq<char> {
    seq!['.']
}

/// Whether `p` is in stored form: it starts and ends with a period.
pub open spec fn is_normalized(p: Seq<char>) -> bool {
    p.len() > 0 && p.first() == '.' && p.last() == '.'
}

/// The stored form of the path `p`.
///
/// The empty path becomes a single period. Any other path gets a leading
/// period unless it starts with one, and a trailing period unless it ends with
/// one. Periods inside the path are left as they are.
pub open spec fn normalize(p: Seq<char>) -> Seq<char> {
    if p.len() == 0 {
        dot()
    } else {
        let lead = if p.first() == '.' { Seq::<char>::empty() } else { dot() };
        let trail = if p.last() == '.' { Seq::<char>::empty() } else { dot() };
        lead + p + trail
    }
}

/// Every stored form starts and ends with a period.
pub proof fn lemma_normalize_is_normalized(p: Seq<char>)
    ensures
        is_normalized(normalize(p)),
{
}

/// A path in stored form is its own stored form.
pub proof fn lemma_normalize_fixes_normalized(p: Seq<char>)
    requires
        is_normalized(p),
    ensures
        normalize(p) == p,
{
    assert(Seq::<char>::empty() + p + Seq::<char>::empty() =~= p);
}

/// Normalizing is idempotent: a second pass changes nothing.
pub proof fn lemma_normalize_idempotent(p: Seq<char>)
    ensures
        normalize(normalize(p)) == normalize(p),
{
    lemma_normalize_is_normalized(p);
    lemma_normalize_fixes_normalized(normalize(p));
}

/// The location of a `Data`: a dotted path, kept in the form `.my.json.path.`.
#[derive(Debug, PartialEq, Eq)]
pub struct DataPath {
    path: String,
}

impl View for DataPath {
    type V = Seq<char>;

    closed spec fn view(&self) -> Seq<char> {
        self.path@
    }
}

impl DataPath {
    #[verifier::type_invariant]
    spec fn stored_form(&self) -> bool {
        is_normalized(self.path@)
    }

    /// Brings `path` into stored form and wraps it.
    pub fn new(path: &str) -> (r: Self)
        ensures
            r@ == normalize(path@),
    {
        proof {
            lemma_normalize_is_normalized(path@);
        }
        DataPath { path: Self::validate_path(path) }
    }

    /// Returns `path` with a period in front and at the end, adding each one
    /// only where it is missing. The empty path gives a single period.
    pub fn validate_path(path: &str) -> (r: String)
        ensures
            r@ == normalize(path@),
    {
        proof {
            reveal_strlit(".");
        }
        let n: usize = path.unicode_len();
        if n == 0 {
            return String::from_str(".");
        }
        let starts = path.get_char(0) == '.';
        let ends = path.get_char(n - 1) == '.';
        let mut out = if starts {
            String::new()
        } else {
            String::from_str(".")
        };
        out.append(path);
        if !ends {
            out.append(".");
        }
        assert(out@ =~= normalize(path@));
        out
    }

    /// The stored path, which starts and ends with a period.
    pub fn as_str(&self) -> (s: &str)
        ensures
            s@ == self@,
            is_normalized(self@),
    {
        proof {
            use_type_invariant(self);
        }
        self.path.as_str()
    }

    /// An owned copy of the stored path.
    pub fn to_string(&self) -> (s: String)
        ensures
            s@ == self@,
            is_normalized(s@),
    {
        proof {
            use_type_invariant(self);
        }
        self.path.clone()
    }
}

impl Clone for DataPath {
    fn clone(&self) -> (r: Self)
        ensures
            r@ == self@,
    {
        proof {
            use_type_invariant(self);
        }
        DataPath { path: self.path.clone() }
    }
}

impl Default for DataPath {
    /// The stored form of the empty path: a single period.
    fn default() -> (r: Self)
        ensures
            r@ == dot(),
    {
        proof {
            reveal_strlit("");
        }
        Self::new("")
    }
}

impl<'a> From<&'a str> for DataPath {
    fn from(path: &'a str) -> (r: Self)
        ensures
            r@ == normalize(path@),
    {
        Self::new(path)
    }
}

impl<'a> vstd::std_specs::convert::FromSpecImpl<&'a str> for DataPath {
    open spec fn obeys_from_spec() -> bool {
        false
    }

    open spec fn from_spec(v: &'a str) -> Self {
        arbitrary()
    }
}

impl From<String> for DataPath {
    fn from(path: String) -> (r: Self)
        ensures
            r@ == normalize(path@),
    {
        Self::new(path.as_str())
    }
}

impl vstd::std_specs::convert::FromSpecImpl<String> for DataPath {
    open spec fn obeys_from_spec() -> bool {
        false
    }

    open spec fn from_spec(v: String) -> Self {
        arbitrary()
    }
}

impl From<DataPath> for String {
    fn from(dp: DataPath) -> (s: String)
        ensures
            s@ == dp@,
            is_normalized(s@),
    {
        dp.to_string()
    }
}

impl vstd::std_specs::convert::FromSpecImpl<DataPath> for String {
    open spec fn obeys_from_spec() -> bool {
        false
    }

    open spec fn from_spec(v: DataPath) -> Self {
        arbitrary()
    }
}

/// The kind of scalar that a value holds, or held before it was encrypted.
#[derive(Debug, Clone, Copy, PartialEq, Eq, Structural)]
pub enum DataType {
    Bool,
    U64,
    I64,
    F64,
    String,
}

/// The name under which a kind of scalar appears in text.
pub open spec fn kind_name(t: DataType) -> Seq<char> {
    match t {
        DataType::Bool => "bool"@,
        DataType::U64 => "u64"@,
        DataType::I64 => "i64"@,
        DataType::F64 => "f64"@,
        DataType::String => "string"@,
    }
}

impl DataType {
    /// The name of the kind, in lower case.
    pub fn as_str(&self) -> (s: &'static str)
        ensures
            s@ == kind_name(*self),
    {
        match self {
            DataType::Bool => "bool",
            DataType::U64 => "u64",
            DataType::I64 => "i64",
            DataType::F64 => "f64",
            DataType::String => "string",
        }
    }

    /// The name of the kind, in lower case.
    pub fn to_string(&self) -> (s: String)
        ensures
            s@ == kind_name(*self),
    {
        String::from_str(self.as_str())
    }
}

/// A 64-bit floating-point number, held as the literal that denotes it.
///
/// The library carries such a number and writes it out; it never computes
/// with it. Two values are the same when their literals are.
#[derive(Debug, PartialEq, Eq)]
pub struct Float64 {
    literal: String,
}

impl View for Float64 {
    type V = Seq<char>;

    closed spec fn view(&self) -> Seq<char> {
        self.literal@
    }
}

impl Float64 {
    #[verifier::type_invariant]
    spec fn denotes_a_number(&self) -> bool {
        is_float_literal(self.literal@)
    }

    /// Takes `literal` as a number if it is the literal of one.
    pub fn parse(literal: &str) -> (r: Option<Float64>)
        ensures
            r is Some <==> is_float_literal(literal@),
            r matches Some(f) ==> f@ == literal@,
    {
        if is_float_text(literal) {
            Some(Float64 { literal: String::from_str(literal) })
        } else {
            None
        }
    }

    /// The literal of the number.
    pub fn as_str(&self) -> (s: &str)
        ensures
            s@ == self@,
            is_float_literal(self@),
    {
        proof {
            use_type_invariant(self);
        }
        self.literal.as_str()
    }

    /// The literal of the number.
    pub fn to_string(&self) -> (s: String)
        ensures
            s@ == self@,
            is_float_literal(s@),
    {
        proof {
            use_type_invariant(self);
        }
        self.literal.clone()
    }
}

impl Clone for Float64 {
    fn clone(&self) -> (r: Self)
        ensures
            r@ == self@,
    {
        proof {
            use_type_invariant(self);
        }
        Float64 { literal: self.literal.clone() }
    }
}

/// What an unencrypted value is, as a mathematical value.
pub enum UnencryptedView {
    Bool(bool),
    U64(u64),
    I64(i64),
    F64(Seq<char>),
    String(Seq<char>),
}

/// The text of a truth value.
pub open spec fn bool_text(b: bool) -> Seq<char> {
    if b {
        "true"@
    } else {
        "false"@
    }
}

impl UnencryptedView {
    /// The kind of scalar held.
    pub open spec fn datatype(self) -> DataType {
        match self {
            UnencryptedView::Bool(_) => DataType::Bool,
            UnencryptedView::U64(_) => DataType::U64,
            UnencryptedView::I64(_) => DataType::I64,
            UnencryptedView::F64(_) => DataType::F64,
            UnencryptedView::String(_) => DataType::String,
        }
    }

    /// The natural text of the scalar: `true` or `false`, decimal digits, the
    /// literal of a float, or the string itself.
    pub open spec fn text(self) -> Seq<char> {
        match self {
            UnencryptedView::Bool(b) => bool_text(b),
            UnencryptedView::U64(n) => decimal(n as nat),
            UnencryptedView::I64(n) => signed_decimal(n as int),
            UnencryptedView::F64(literal) => literal,
            UnencryptedView::String(s) => s,
        }
    }
}

/// The scalar that the text `s` stands for: a truth value where it is `true`
/// or `false`; else an unsigned integer where it writes one that fits; else a
/// signed integer likewise; else a float where it is the literal of one; else
/// the string itself.
pub open spec fn infer(s: Seq<char>) -> UnencryptedView {
    if s == "true"@ {
        UnencryptedView::Bool(true)
    } else if s == "false"@ {
        UnencryptedView::Bool(false)
    } else if parse_u64(s) is Some {
        UnencryptedView::U64(parse_u64(s)->0)
    } else if parse_i64(s) is Some {
        UnencryptedView::I64(parse_i64(s)->0)
    } else if is_float_literal(s) {
        UnencryptedView::F64(s)
    } else {
        UnencryptedView::String(s)
    }
}

impl UnencryptedView {
    /// Whether the scalar is held in the kind that its own text stands for:
    /// any truth value and any unsigned integer is; a signed integer is when
    /// it is negative; a float is when its literal is not that of an integer
    /// which fits; a string is when it is not the text of any of the others.
    pub open spec fn in_its_own_kind(self) -> bool {
        match self {
            UnencryptedView::Bool(_) => true,
            UnencryptedView::U64(_) => true,
            UnencryptedView::I64(n) => n < 0,
            UnencryptedView::F64(literal) => {
                &&& is_float_literal(literal)
                &&& parse_u64(literal) is None
                &&& parse_i64(literal) is None
            },
            UnencryptedView::String(s) => {
                &&& s != "true"@
                &&& s != "false"@
                &&& parse_u64(s) is None
                &&& parse_i64(s) is None
                &&& !is_float_literal(s)
            },
        }
    }
}

/// Writing a scalar out and reading the text back gives the same scalar, for
/// every scalar that is held in the kind that its own text stands for.
pub proof fn lemma_infer_recovers_the_scalar(v: UnencryptedView)
    requires
        v.in_its_own_kind(),
    ensures
        infer(v.text()) == v,
{
    reveal_strlit("true");
    reveal_strlit("false");
    match v {
        UnencryptedView::Bool(b) => {
            assert("true"@.len() != "false"@.len());
        },
        UnencryptedView::U64(n) => {
            let t = decimal(n as nat);
            lemma_decimal_is_read_back(n as nat);
            assert(is_digit(t[0]));
            assert(t != "true"@) by {
                assert("true"@[0] == 't');
            }
            assert(t != "false"@) by {
                assert("false"@[0] == 'f');
            }
        },
        UnencryptedView::I64(n) => {
            let m = (-(n as int)) as nat;
            let t = signed_decimal(n as int);
            lemma_decimal_is_read_back(m);
            assert(t[0] == '-');
            assert(t.skip(1) =~= decimal(m));
            assert(t != "true"@) by {
                assert("true"@[0] == 't');
            }
            assert(t != "false"@) by {
                assert("false"@[0] == 'f');
            }
            assert(!is_digit(t[0]));
            assert(parse_u64(t) is None);
        },
        UnencryptedView::F64(literal) => {
            assert(literal != "true"@) by {
                if literal == "true"@ {
                    lemma_word_is_no_float(literal);
                }
            }
            assert(literal != "false"@) by {
                if literal == "false"@ {
                    lemma_word_is_no_float(literal);
                }
            }
        },
        UnencryptedView::String(s) => {},
    }
}

/// Neither `true` nor `false` is the literal of a float.
proof fn lemma_word_is_no_float(s: Seq<char>)
    requires
        s == "true"@ || s == "false"@,
    ensures
        !is_float_literal(s),
{
    reveal_strlit("true");
    reveal_strlit("false");
    assert(!is_sign(s[0]));
    assert(!is_digit(s[0]));
    assert(!spells(s, seq!['i', 'n', 'f']));
    assert(!spells(s, seq!['n', 'a', 'n']));
    assert(!spells(s, seq!['i', 'n', 'f', 'i', 'n', 'i', 't', 'y']));
    assert(digits_from(s, 0) == 0);
    assert(s[0] != '.');
}

/// A scalar in the clear.
#[derive(Debug, PartialEq)]
pub enum UnencryptedDataValue {
    Bool(bool),
    U64(u64),
    I64(i64),
    F64(Float64),
    String(String),
}

impl View for UnencryptedDataValue {
    type V = UnencryptedView;

    open spec fn view(&self) -> UnencryptedView {
        match self {
            UnencryptedDataValue::Bool(b) => UnencryptedView::Bool(*b),
            UnencryptedDataValue::U64(n) => UnencryptedView::U64(*n),
            UnencryptedDataValue::I64(n) => UnencryptedView::I64(*n),
            UnencryptedDataValue::F64(f) => UnencryptedView::F64(f@),
            UnencryptedDataValue::String(s) => UnencryptedView::String(s@),
        }
    }
}

impl UnencryptedDataValue {
    /// The kind of scalar held.
    pub fn datatype(&self) -> (t: DataType)
        ensures
            t == self@.datatype(),
    {
        match self {
            UnencryptedDataValue::Bool(_) => DataType::Bool,
            UnencryptedDataValue::U64(_) => DataType::U64,
            UnencryptedDataValue::I64(_) => DataType::I64,
            UnencryptedDataValue::F64(_) => DataType::F64,
            UnencryptedDataValue::String(_) => DataType::String,
        }
    }

    /// The scalar that `text` stands for: `true` and `false` are truth
    /// values, digits are an integer, unsigned where there is no minus sign,
    /// the literal of a float is a float, and anything else is a string.
    pub fn infer(text: &str) -> (r: UnencryptedDataValue)
        ensures
            r@ == infer(text@),
    {
        if same_text(text, "true") {
            return UnencryptedDataValue::Bool(true);
        }
        if same_text(text, "false") {
            return UnencryptedDataValue::Bool(false);
        }
        if let Some(n) = u64_of_text(text) {
            return UnencryptedDataValue::U64(n);
        }
        if let Some(n) = i64_of_text(text) {
            return UnencryptedDataValue::I64(n);
        }
        match Float64::parse(text) {
            Some(f) => UnencryptedDataValue::F64(f),
            None => UnencryptedDataValue::String(String::from_str(text)),
        }
    }

    /// The natural text of the scalar.
    pub fn to_string(&self) -> (s: String)
        ensures
            s@ == self@.text(),
    {
        match self {
            UnencryptedDataValue::Bool(b) => {
                if *b {
                    String::from_str("true")
                } else {
                    String::from_str("false")
                }
            },
            UnencryptedDataValue::U64(n) => u64_to_string(*n),
            UnencryptedDataValue::I64(n) => i64_to_string(*n),
            UnencryptedDataValue::F64(f) => f.to_string(),
            UnencryptedDataValue::String(s) => s.clone(),
        }
    }
}

impl Clone for UnencryptedDataValue {
    fn clone(&self) -> (r: Self)
        ensures
            r@ == self@,
    {
        match self {
            UnencryptedDataValue::Bool(b) => UnencryptedDataValue::Bool(*b),
            UnencryptedDataValue::U64(n) => UnencryptedDataValue::U64(*n),
            UnencryptedDataValue::I64(n) => UnencryptedDataValue::I64(*n),
            UnencryptedDataValue::F64(f) => UnencryptedDataValue::F64(f.clone()),
            UnencryptedDataValue::String(s) => UnencryptedDataValue::String(s.clone()),
        }
    }
}

/// Reads `bytes` as UTF-8 text with `core::str::from_utf8`, which accepts
/// exactly the well-formed byte sequences and hands back the text they encode.
#[verifier::external_body]
fn utf8_text(bytes: &[u8]) -> (r: Option<&str>)
    ensures
        r is Some <==> valid_utf8(bytes@),
        r matches Some(s) ==> s@ == decode_utf8(bytes@),
{
    match core::str::from_utf8(bytes) {
        Ok(text) => Some(text),
        Err(_) => None,
    }
}

/// What an encrypted value is, as a mathematical value.
pub struct EncryptedView {
    pub value: Seq<u8>,
    pub datatype: DataType,
    pub keyname: Seq<char>,
}

impl EncryptedView {
    /// Whether the value can be written out: its payload has to be UTF-8 text.
    pub open spec fn renderable(self) -> bool {
        valid_utf8(self.value)
    }

    /// The text of the value: the key's name, the kind of scalar that the
    /// payload stands for, and the payload read as text.
    pub open spec fn text(self) -> Seq<char> {
        "encrypted(key: \""@ + self.keyname + "\", type: \""@ + kind_name(self.datatype)
            + "\", value: \""@ + decode_utf8(self.value) + "\")"@
    }
}

/// An encrypted scalar: the payload, the kind of scalar that it holds once
/// decrypted, and the name of the key that encrypted it.
#[derive(Debug, PartialEq, Eq)]
pub struct EncryptedDataValue {
    pub value: Vec<u8>,
    pub datatype: DataType,
    pub keyname: String,
}

impl View for EncryptedDataValue {
    type V = EncryptedView;

    open spec fn view(&self) -> EncryptedView {
        EncryptedView { value: self.value@, datatype: self.datatype, keyname: self.keyname@ }
    }
}

impl EncryptedDataValue {
    /// The text of the value, or nothing where the payload is not UTF-8 text.
    pub fn render(&self) -> (r: Option<String>)
        ensures
            r is Some <==> self@.renderable(),
            r matches Some(s) ==> s@ == self@.text(),
    {
        match utf8_text(self.value.as_slice()) {
            None => None,
            Some(payload) => {
                let mut out = String::from_str("encrypted(key: \"");
                out.append(self.keyname.as_str());
                out.append("\", type: \"");
                out.append(self.datatype.as_str());
                out.append("\", value: \"");
                out.append(payload);
                out.append("\")");
                Some(out)
            },
        }
    }

    /// The text of the value.
    pub fn to_string(&self) -> (s: String)
        requires
            self@.renderable(),
        ensures
            s@ == self@.text(),
    {
        match self.render() {
            Some(s) => s,
            None => String::new(),
        }
    }
}

impl Clone for EncryptedDataValue {
    fn clone(&self) -> (r: Self)
        ensures
            r@ == self@,
    {
        EncryptedDataValue {
            value: self.value.clone(),
            datatype: self.datatype,
            keyname: self.keyname.clone(),
        }
    }
}

/// What a value is, as a mathematical value.
pub enum DataValueView {
    Encrypted(EncryptedView),
    Unencrypted(UnencryptedView),
}

impl DataValueView {
    /// Whether the value can be written out. A value in the clear always can.
    pub open spec fn renderable(self) -> bool {
        match self {
            DataValueView::Encrypted(e) => e.renderable(),
            DataValueView::Unencrypted(_) => true,
        }
    }

    /// The text of the value.
    pub open spec fn text(self) -> Seq<char> {
        match self {
            DataValueView::Encrypted(e) => e.text(),
            DataValueView::Unencrypted(u) => u.text(),
        }
    }
}

/// The raw value of a piece of `Data`: always a leaf, never an array or an
/// object.
#[derive(Debug, PartialEq)]
pub enum DataValue {
    Encrypted(EncryptedDataValue),
    Unencrypted(UnencryptedDataValue),
}

impl View for DataValue {
    type V = DataValueView;

    open spec fn view(&self) -> DataValueView {
        match self {
            DataValue::Encrypted(e) => DataValueView::Encrypted(e@),
            DataValue::Unencrypted(u) => DataValueView::Unencrypted(u@),
        }
    }
}

impl DataValue {
    /// The value in the clear that `text` stands for.
    pub fn infer(text: &str) -> (r: DataValue)
        ensures
            r@ == DataValueView::Unencrypted(infer(text@)),
    {
        DataValue::Unencrypted(UnencryptedDataValue::infer(text))
    }

    /// The text of the value, or nothing where it is encrypted and its payload
    /// is not UTF-8 text.
    pub fn render(&self) -> (r: Option<String>)
        ensures
            r is Some <==> self@.renderable(),
            r matches Some(s) ==> s@ == self@.text(),
    {
        match self {
            DataValue::Encrypted(e) => e.render(),
            DataValue::Unencrypted(u) => Some(u.to_string()),
        }
    }

    /// The text of the value.
    pub fn to_string(&self) -> (s: String)
        requires
            self@.renderable(),
        ensures
            s@ == self@.text(),
    {
        match self {
            DataValue::Encrypted(e) => e.to_string(),
            DataValue::Unencrypted(u) => u.to_string(),
        }
    }
}

impl Clone for DataValue {
    fn clone(&self) -> (r: Self)
        ensures
            r@ == self@,
    {
        match self {
            DataValue::Encrypted(e) => DataValue::Encrypted(e.clone()),
            DataValue::Unencrypted(u) => DataValue::Unencrypted(u.clone()),
        }
    }
}

impl Default for DataValue {
    /// The truth value `false`, in the clear.
    fn default() -> (r: Self)
        ensures
            r@ == DataValueView::Unencrypted(UnencryptedView::Bool(false)),
    {
        DataValue::Unencrypted(UnencryptedDataValue::Bool(false))
    }
}

impl From<String> for DataValue {
    fn from(s: String) -> (r: Self)
        ensures
            r@ == DataValueView::Unencrypted(UnencryptedView::String(s@)),
    {
        DataValue::Unencrypted(UnencryptedDataValue::String(s))
    }
}

impl vstd::std_specs::convert::FromSpecImpl<String> for DataValue {
    open spec fn obeys_from_spec() -> bool {
        true
    }

    open spec fn from_spec(s: String) -> Self {
        DataValue::Unencrypted(UnencryptedDataValue::String(s))
    }
}

impl<'a> From<&'a str> for DataValue {
    fn from(s: &'a str) -> (r: Self)
        ensures
            r@ == DataValueView::Unencrypted(UnencryptedView::String(s@)),
    {
        DataValue::Unencrypted(UnencryptedDataValue::String(String::from_str(s)))
    }
}

impl<'a> vstd::std_specs::convert::FromSpecImpl<&'a str> for DataValue {
    open spec fn obeys_from_spec() -> bool {
        false
    }

    open spec fn from_spec(s: &'a str) -> Self {
        arbitrary()
    }
}

/// The views of the values of `values`, in the same order.
pub open spec fn views_of(values: Seq<DataValue>) -> Seq<DataValueView> {
    values.map_values(|v: DataValue| v@)
}

/// Whether each of `values` can be written out.
pub open spec fn all_renderable(values: Seq<DataValueView>) -> bool {
    forall|i: int| 0 <= i < values.len() ==> (#[trigger] values[i]).renderable()
}

/// The texts of `values`, one after the other with nothing between them.
pub open spec fn joined_text(values: Seq<DataValueView>) -> Seq<char>
    decreases values.len(),
{
    if values.len() == 0 {
        Seq::<char>::empty()
    } else {
        joined_text(values.drop_last()) + values.last().text()
    }
}

/// The values of a `Data`, in order.
#[derive(Debug, PartialEq)]
pub struct DataValueCollection(pub Vec<DataValue>);

impl View for DataValueCollection {
    type V = Seq<DataValueView>;

    open spec fn view(&self) -> Seq<DataValueView> {
        views_of(self.0@)
    }
}

impl DataValueCollection {
    /// The texts of the values one after the other, or nothing where one of
    /// them cannot be written out.
    pub fn render(&self) -> (r: Option<String>)
        ensures
            r is Some <==> all_renderable(self@),
            r matches Some(s) ==> s@ == joined_text(self@),
    {
        let mut out = String::new();
        let mut i: usize = 0;
        while i < self.0.len()
            invariant
                i <= self.0.len(),
                all_renderable(self@.take(i as int)),
                out@ == joined_text(self@.take(i as int)),
            decreases self.0.len() - i,
        {
            match self.0[i].render() {
                None => {
                    assert(!self@[i as int].renderable());
                    return None;
                },
                Some(text) => {
                    out.append(text.as_str());
                    assert(self@.take(i + 1).drop_last() =~= self@.take(i as int));
                    assert(self@.take(i + 1).last() == self@[i as int]);
                },
            }
            i += 1;
        }
        assert(self@.take(i as int) =~= self@);
        Some(out)
    }

    /// The texts of the values, one after the other.
    pub fn to_string(&self) -> (s: String)
        requires
            all_renderable(self@),
        ensures
            s@ == joined_text(self@),
    {
        match self.render() {
            Some(s) => s,
            None => String::new(),
        }
    }
}

impl Clone for DataValueCollection {
    fn clone(&self) -> (r: Self)
        ensures
            r@ == self@,
    {
        let mut values: Vec<DataValue> = Vec::new();
        let mut i: usize = 0;
        while i < self.0.len()
            invariant
                i <= self.0.len(),
                values.len() == i,
                views_of(values@) == self@.take(i as int),
            decreases self.0.len() - i,
        {
            let ghost before = values@;
            let value = self.0[i].clone();
            values.push(value);
            assert(views_of(values@) =~= self@.take(i + 1)) by {
                assert(values@ == before.push(value));
                assert(views_of(before) == self@.take(i as int));
                assert(self@[i as int] == self.0@[i as int]@);
                assert forall|j: int| 0 <= j < i + 1 implies #[trigger] views_of(values@)[j]
                    == self@.take(i + 1)[j] by {
                    if j < i {
                        assert(views_of(before)[j] == before[j]@);
                        assert(self@.take(i as int)[j] == self@[j]);
                    }
                }
            }
            i += 1;
        }
        assert(self@.take(i as int) =~= self@);
        DataValueCollection(values)
    }
}

impl Default for DataValueCollection {
    /// The collection without any value.
    fn default() -> (r: Self)
        ensures
            r@ == Seq::<DataValueView>::empty(),
    {
        let r = DataValueCollection(Vec::new());
        assert(r@ =~= Seq::<DataValueView>::empty());
        r
    }
}

/// The names in `names` as plain texts, in the same order.
pub open spec fn names_of(names: Seq<String>) -> Seq<Seq<char>> {
    names.map_values(|n: String| n@)
}

/// The key names of a `Data` as plain texts, where it has any.
pub open spec fn keys_of(encryptedby: Option<Vec<String>>) -> Option<Seq<Seq<char>>> {
    match encryptedby {
        Some(names) => Some(names_of(names@)),
        None => None,
    }
}

/// What a `Data` is, as a mathematical value.
pub struct DataView {
    pub path: Seq<char>,
    pub values: Seq<DataValueView>,
    pub encryptedby: Option<Seq<Seq<char>>>,
}

impl DataView {
    /// Whether the unit is well formed: its path is in stored form and it has
    /// at least one value.
    pub open spec fn well_formed(self) -> bool {
        is_normalized(self.path) && self.values.len() > 0
    }

    /// Whether each value of the unit can be written out.
    pub open spec fn renderable(self) -> bool {
        all_renderable(self.values)
    }

    /// The text of the unit: the texts of its values, one after the other.
    pub open spec fn text(self) -> Seq<char> {
        joined_text(self.values)
    }
}

/// A unit of data: one or more values at a path, and the names of the keys
/// that encrypted it, where any did.
///
/// The key names are kept beside the values as they were given; nothing
/// compares them with the key name that an encrypted value carries itself.
#[derive(Debug, PartialEq)]
pub struct Data {
    path: DataPath,
    value: DataValueCollection,
    encryptedby: Option<Vec<String>>,
}

impl View for Data {
    type V = DataView;

    closed spec fn view(&self) -> DataView {
        DataView { path: self.path@, values: self.value@, encryptedby: keys_of(self.encryptedby) }
    }
}

fn clone_names(names: &Vec<String>) -> (r: Vec<String>)
    ensures
        names_of(r@) == names_of(names@),
{
    let mut out: Vec<String> = Vec::new();
    let mut i: usize = 0;
    while i < names.len()
        invariant
            i <= names.len(),
            out.len() == i,
            forall|j: int| 0 <= j < i ==> (#[trigger] out@[j])@ == names@[j]@,
        decreases names.len() - i,
    {
        out.push(names[i].clone());
        i += 1;
    }
    assert(names_of(out@) =~= names_of(names@));
    out
}

impl Data {
    #[verifier::type_invariant]
    spec fn has_a_value(&self) -> bool {
        self.value@.len() > 0
    }

    /// The unit with the single value `value` at `path`, which is brought into
    /// stored form.
    pub fn new(path: &str, value: DataValue, encryptedby: Option<Vec<String>>) -> (r: Self)
        ensures
            r@.path == normalize(path@),
            r@.values == seq![value@],
            r@.encryptedby == keys_of(encryptedby),
            r@.well_formed(),
    {
        let mut values: Vec<DataValue> = Vec::new();
        values.push(value);
        assert(views_of(values@) =~= seq![value@]);
        proof {
            lemma_normalize_is_normalized(path@);
        }
        Data { path: DataPath::new(path), value: DataValueCollection(values), encryptedby }
    }

    /// The unit with the values `values`, in their order, at `path`, which is
    /// brought into stored form; nothing where `values` is empty.
    pub fn with_values(path: &str, values: Vec<DataValue>, encryptedby: Option<Vec<String>>) -> (r:
        Option<Self>)
        ensures
            r is Some <==> values@.len() > 0,
            r matches Some(d) ==> {
                &&& d@.path == normalize(path@)
                &&& d@.values == views_of(values@)
                &&& d@.encryptedby == keys_of(encryptedby)
                &&& d@.well_formed()
            },
    {
        if values.len() == 0 {
            None
        } else {
            proof {
                lemma_normalize_is_normalized(path@);
            }
            Some(Data { path: DataPath::new(path), value: DataValueCollection(values), encryptedby })
        }
    }

    /// An owned copy of the path, in stored form.
    pub fn path(&self) -> (s: String)
        ensures
            s@ == self@.path,
            is_normalized(s@),
    {
        self.path.to_string()
    }

    /// The values of the unit: at least one.
    pub fn values(&self) -> (v: &DataValueCollection)
        ensures
            v@ == self@.values,
            v@.len() > 0,
    {
        proof {
            use_type_invariant(self);
        }
        &self.value
    }

    /// The names of the keys that encrypted the unit, where any did.
    pub fn encryptedby(&self) -> (r: &Option<Vec<String>>)
        ensures
            keys_of(*r) == self@.encryptedby,
    {
        &self.encryptedby
    }

    /// The text of the unit, or nothing where one of its values cannot be
    /// written out.
    pub fn render(&self) -> (r: Option<String>)
        ensures
            r is Some <==> self@.renderable(),
            r matches Some(s) ==> s@ == self@.text(),
    {
        self.value.render()
    }

    /// The text of the unit.
    pub fn to_string(&self) -> (s: String)
        requires
            self@.renderable(),
        ensures
            s@ == self@.text(),
    {
        self.value.to_string()
    }
}

impl Clone for Data {
    fn clone(&self) -> (r: Self)
        ensures
            r@ == self@,
    {
        proof {
            use_type_invariant(self);
        }
        let encryptedby = match &self.encryptedby {
            Some(names) => Some(clone_names(names)),
            None => None,
        };
        Data { path: self.path.clone(), value: self.value.clone(), encryptedby }
    }
}

/// Several units in order, as a read of many returns them.
#[derive(Debug, PartialEq)]
pub struct DataCollection {
    pub data: Vec<Data>,
}

impl View for DataCollection {
    type V = Seq<DataView>;

    open spec fn view(&self) -> Seq<DataView> {
        self.data@.map_values(|d: Data| d@)
    }
}

} // verus!
