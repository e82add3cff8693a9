use vstd::prelude::*;
use vstd::string::*;

use crate::text::str_contains_char;

verus! {

/// Identifier of a kind of data: a name and a type.
#[derive(Debug, PartialEq, Eq, Hash, PartialOrd, Ord, Default)]
pub struct DataId {
    pub name: String,
    pub type_: String,
}

/// The text of a data id's two fields.
pub struct DataIdView {
    pub name: Seq<char>,
    pub type_: Seq<char>,
}

impl View for DataId {
    type V = DataIdView;

    open spec fn view(&self) -> DataIdView {
        DataIdView { name: self.name@, type_: self.type_@ }
    }
}

/// Why a text could not be read as a data id.
#[derive(Clone, Copy, PartialEq, Eq, Debug, Structural)]
pub enum DataIdParseError {
    /// The text holds no `:`.
    SplitterNotFound,
    /// The text holds more than one `:`.
    MultipleSplitterFound,
    /// A field holds a character that a data id may not hold.
    InvalidChar(char),
}

/// The first of `#`, `+` and `:` (in that order) that occurs in either field, if any.
pub open spec fn invalid_char_of(name: Seq<char>, type_: Seq<char>) -> Option<char> {
    if name.contains('#') || type_.contains('#') {
        Some('#')
    } else if name.contains('+') || type_.contains('+') {
        Some('+')
    } else if name.contains(':') || type_.contains(':') {
        Some(':')
    } else {
        None
    }
}

/// The result of validating a data id with the given fields.
pub open spec fn validate_spec(v: DataIdView) -> Result<(), DataIdParseError> {
    match invalid_char_of(v.name, v.type_) {
        Some(c) => Err(DataIdParseError::InvalidChar(c)),
        None => Ok(()),
    }
}

/// Whether `s` holds `:` at two different places.
pub open spec fn has_two_colons(s: Seq<char>) -> bool {
    exists|i: int, j: int| 0 <= i < j < s.len() && s[i] == ':' && s[j] == ':'
}

/// The text form of a data id: its type, `:`, its name.
pub open spec fn format_spec(v: DataIdView) -> Seq<char> {
    v.type_ + seq![':'] + v.name
}

/// What reading `s` as a data id gives.
pub open spec fn parse_spec(s: Seq<char>) -> Result<DataIdView, DataIdParseError> {
    if !s.contains(':') {
        Err(DataIdParseError::SplitterNotFound)
    } else if has_two_colons(s) {
        Err(DataIdParseError::MultipleSplitterFound)
    } else {
        let i = s.index_of(':');
        let v = DataIdView { name: s.subrange(i + 1, s.len() as int), type_: s.subrange(0, i) };
        match validate_spec(v) {
            Ok(_) => Ok(v),
            Err(e) => Err(e),
        }
    }
}

impl Clone for DataId {
    fn clone(&self) -> (r: Self)
        ensures
            r == *self,
    {
        DataId { name: self.name.clone(), type_: self.type_.clone() }
    }
}

impl DataId {
    /// A data id with the given name and type.
    pub fn new(name: &str, type_: &str) -> (r: DataId)
        ensures
            r.name@ == name@,
            r.type_@ == type_@,
    {
        DataId { name: name.to_owned(), type_: type_.to_owned() }
    }

    /// Checks that neither field holds `#`, `+` or `:`; the error names the first of those
    /// three, in that order, that occurs.
    pub fn validate(&self) -> (r: Result<(), DataIdParseError>)
        ensures
            r == validate_spec(self@),
    {
        let name = self.name.as_str();
        let type_ = self.type_.as_str();
        if str_contains_char(name, '#') || str_contains_char(type_, '#') {
            return Err(DataIdParseError::InvalidChar('#'));
        }
        if str_contains_char(name, '+') || str_contains_char(type_, '+') {
            return Err(DataIdParseError::InvalidChar('+'));
        }
        if str_contains_char(name, ':') || str_contains_char(type_, ':') {
            return Err(DataIdParseError::InvalidChar(':'));
        }
        Ok(())
    }

    /// Reads a data id from its text form `type:name`.
    pub fn parse_str(s: &str) -> (r: Result<DataId, DataIdParseError>)
        ensures
            match (r, parse_spec(s@)) {
                (Ok(id), Ok(v)) => id@ == v,
                (Err(e1), Err(e2)) => e1 == e2,
                _ => false,
            },
    {
        let n = s.unicode_len();
        let mut first: Option<usize> = None;
        let mut i: usize = 0;
        while i < n
            invariant
                n == s@.len(),
                i <= n,
                match first {
                    None => forall|j: int| 0 <= j < i ==> s@[j] != ':',
                    Some(k) => {
                        &&& k < i
                        &&& s@[k as int] == ':'
                        &&& forall|j: int| 0 <= j < i && j != k ==> s@[j] != ':'
                    },
                },
            decreases n - i,
        {
            if s.get_char(i) == ':' {
                match first {
                    None => {
                        first = Some(i);
                    },
                    Some(k) => {
                        assert(0 <= k < i < s@.len() && s@[k as int] == ':' && s@[i as int]
                            == ':');
                        assert(has_two_colons(s@));
                        return Err(DataIdParseError::MultipleSplitterFound);
                    },
                }
            }
            i = i + 1;
        }
        match first {
            None => {
                assert(!s@.contains(':'));
                Err(DataIdParseError::SplitterNotFound)
            },
            Some(k) => {
                assert(s@.contains(':')) by {
                    assert(s@[k as int] == ':');
                }
                assert(!has_two_colons(s@));
                let ghost idx = s@.index_of(':');
                assert(idx == k);
                let type_ = s.substring_char(0, k).to_owned();
                let name = s.substring_char(k + 1, n).to_owned();
                let id = DataId { name, type_ };
                match id.validate() {
                    Ok(_) => Ok(id),
                    Err(e) => Err(e),
                }
            },
        }
    }

    /// The text form of this data id: its type, `:`, its name.
    pub fn to_string(&self) -> (r: String)
        ensures
            r@ == format_spec(self@),
    {
        let r = self.type_.clone().concat(":").concat(self.name.as_str());
        proof {
            reveal_strlit(":");
        }
        r
    }
}

impl std::str::FromStr for DataId {
    type Err = DataIdParseError;

    /// Reads a data id from its text form `type:name`, as `parse_str` does.
    fn from_str(s: &str) -> (r: Result<DataId, DataIdParseError>)
        ensures
            match (r, parse_spec(s@)) {
                (Ok(id), Ok(v)) => id@ == v,
                (Err(e1), Err(e2)) => e1 == e2,
                _ => false,
            },
    {
        DataId::parse_str(s)
    }
}

/// A data id whose fields hold none of `#`, `+`, `:` reads back from its text form unchanged.
pub proof fn lemma_parse_format_roundtrip(v: DataIdView)
    requires
        validate_spec(v) is Ok,
    ensures
        parse_spec(format_spec(v)) == Ok::<DataIdView, DataIdParseError>(v),
{
    let s = format_spec(v);
    let k = v.type_.len() as int;
    assert(s[k] == ':');
    assert forall|j: int| 0 <= j < s.len() && j != k implies s[j] != ':' by {
        if j < k {
            assert(s[j] == v.type_[j]);
            assert(v.type_.contains(v.type_[j]));
        } else {
            assert(s[j] == v.name[j - k - 1]);
            assert(v.name.contains(v.name[j - k - 1]));
        }
    }
    assert(s.contains(':'));
    assert(!has_two_colons(s));
    let i = s.index_of(':');
    assert(i == k);
    assert(s.subrange(i + 1, s.len() as int) =~= v.name);
    assert(s.subrange(0, i) =~= v.type_);
}

/// Whatever text reads as a data id is exactly that data id's text form.
pub proof fn lemma_parse_inverse(s: Seq<char>)
    ensures
        parse_spec(s) matches Ok(v) ==> format_spec(v) == s,
{
    if let Ok(v) = parse_spec(s) {
        let i = s.index_of(':');
        assert(format_spec(v) =~= s);
    }
}

/// A data filter: the name and type of the data that a downstream asks for.
#[derive(Debug, PartialEq, Eq, Hash, PartialOrd, Ord, Default)]
pub struct DataFilter {
    pub name: String,
    pub type_: String,
}

impl Clone for DataFilter {
    fn clone(&self) -> (r: Self)
        ensures
            r == *self,
    {
        DataFilter { name: self.name.clone(), type_: self.type_.clone() }
    }
}

impl DataFilter {
    /// A data filter with the given name and type.
    pub fn new(name: &str, type_: &str) -> (r: DataFilter)
        ensures
            r.name@ == name@,
            r.type_@ == type_@,
    {
        DataFilter { name: name.to_owned(), type_: type_.to_owned() }
    }

    /// The filter that matches every name and every type (`#` for both).
    pub fn new_no_filter() -> (r: DataFilter)
        ensures
            r.name@ == seq!['#'],
            r.type_@ == seq!['#'],
    {
        proof {
            reveal_strlit("#");
        }
        DataFilter::new("#", "#")
    }

    /// The filter that matches exactly the given data id.
    pub fn from_data_id(id: DataId) -> (r: DataFilter)
        ensures
            r.name == id.name,
            r.type_ == id.type_,
    {
        DataFilter { name: id.name, type_: id.type_ }
    }
}

/// Filter of a downstream: a source node and the data filters for its data.
#[derive(Debug, PartialEq, Eq, Default)]
pub struct DownstreamFilter {
    pub source_node_id: String,
    pub data_filters: Vec<DataFilter>,
}

impl View for DownstreamFilter {
    type V = (Seq<char>, Seq<DataFilter>);

    open spec fn view(&self) -> (Seq<char>, Seq<DataFilter>) {
        (self.source_node_id@, self.data_filters@)
    }
}

impl Clone for DownstreamFilter {
    fn clone(&self) -> (r: Self)
        ensures
            r@ == self@,
    {
        let v = &self.data_filters;
        let mut data_filters: Vec<DataFilter> = Vec::new();
        let mut i: usize = 0;
        while i < v.len()
            invariant
                i <= v@.len(),
                data_filters@ == v@.take(i as int),
            decreases v@.len() - i,
        {
            data_filters.push(v[i].clone());
            assert(v@.take(i + 1) =~= v@.take(i as int).push(v@[i as int]));
            i = i + 1;
        }
        assert(v@.take(v@.len() as int) =~= v@);
        DownstreamFilter { source_node_id: self.source_node_id.clone(), data_filters }
    }
}

/// The plain values of downstream filters.
pub open spec fn filters_view(s: Seq<DownstreamFilter>) -> Seq<(Seq<char>, Seq<DataFilter>)> {
    s.map_values(|f: DownstreamFilter| f@)
}

/// A copy of downstream filters, with the same plain values.
pub fn clone_filters(v: &Vec<DownstreamFilter>) -> (r: Vec<DownstreamFilter>)
    ensures
        filters_view(r@) == filters_view(v@),
{
    let mut r: Vec<DownstreamFilter> = Vec::new();
    let mut i: usize = 0;
    while i < v.len()
        invariant
            i <= v@.len(),
            r@.len() == i,
            filters_view(r@) == filters_view(v@.take(i as int)),
        decreases v@.len() - i,
    {
        let ghost r0 = r@;
        let c = v[i].clone();
        r.push(c);
        proof {
            assert(v@.take(i + 1) =~= v@.take(i as int).push(v@[i as int]));
            assert forall|j: int| 0 <= j < i + 1 implies #[trigger] filters_view(r@)[j]
                == filters_view(v@.take(i + 1))[j] by {
                if j < i {
                    assert(filters_view(r@)[j] == filters_view(r0)[j]);
                    assert(filters_view(r0)[j] == filters_view(v@.take(i as int))[j]);
                }
            }
            assert(filters_view(r@) =~= filters_view(v@.take(i + 1)));
        }
        i = i + 1;
    }
    assert(v@.take(v@.len() as int) =~= v@);
    r
}

impl DownstreamFilter {
    /// The filter for every data of the given source node.
    pub fn new_no_data_filters(source_node_id: &str) -> (r: DownstreamFilter)
        ensures
            r.source_node_id@ == source_node_id@,
            r.data_filters@.len() == 1,
            r.data_filters@[0].name@ == seq!['#'],
            r.data_filters@[0].type_@ == seq!['#'],
    {
        let mut data_filters = Vec::new();
        data_filters.push(DataFilter::new_no_filter());
        DownstreamFilter { source_node_id: source_node_id.to_owned(), data_filters }
    }
}

} // verus!
