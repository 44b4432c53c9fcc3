//! The local taxonomic reference: entries of the flat taxonomy file and the
//! taxonomic levels used to filter them.

use vstd::prelude::*;

use crate::config::SpeciesTrait;
use crate::text::{chars_to_string, lower_of, str_chars, to_lowercase};
use crate::Error;

verus! {

/// The different taxonomic levels.
#[derive(Copy, Clone, PartialEq, Eq, Structural, Debug)]
pub enum Taxon {
    /// Reign.
    Reign,
    /// Phylum.
    Phylum,
    /// Class.
    Class,
    /// Order.
    Order,
    /// Family.
    Family,
    /// Genus (sub-family).
    Genus,
    /// Species.
    Species,
}

/// The lowercase name of a taxonomic level.
pub open spec fn taxon_str_of(t: Taxon) -> Seq<char> {
    match t {
        Taxon::Reign => "reign"@,
        Taxon::Phylum => "phylum"@,
        Taxon::Class => "class"@,
        Taxon::Order => "order"@,
        Taxon::Family => "family"@,
        Taxon::Genus => "genus"@,
        Taxon::Species => "species"@,
    }
}

impl Taxon {
    /// Returns a string version of the taxon.
    pub fn to_str(self) -> (r: &'static str)
        ensures
            r@ == taxon_str_of(self),
    {
        match self {
            Taxon::Reign => "reign",
            Taxon::Phylum => "phylum",
            Taxon::Class => "class",
            Taxon::Order => "order",
            Taxon::Family => "family",
            Taxon::Genus => "genus",
            Taxon::Species => "species",
        }
    }
}

/// An error that occurred while parsing a taxon.
pub struct NoSuchTaxon(pub String);

/// The taxon whose lowercase name is `s`, if any.
pub open spec fn taxon_of_str(s: Seq<char>) -> Option<Taxon> {
    if s == "reign"@ {
        Some(Taxon::Reign)
    } else if s == "phylum"@ {
        Some(Taxon::Phylum)
    } else if s == "class"@ {
        Some(Taxon::Class)
    } else if s == "order"@ {
        Some(Taxon::Order)
    } else if s == "family"@ {
        Some(Taxon::Family)
    } else if s == "genus"@ {
        Some(Taxon::Genus)
    } else if s == "species"@ {
        Some(Taxon::Species)
    } else {
        None
    }
}

/// Parses a taxonomic level from its case-insensitive name.
pub fn parse_taxon(input: &str) -> (r: Result<Taxon, NoSuchTaxon>)
    ensures
        match r {
            Ok(t) => taxon_of_str(lower_of(input@)) == Some(t),
            Err(e) => taxon_of_str(lower_of(input@)) is None && e.0@ == input@,
        },
{
    let l = to_lowercase(input);
    if l == "reign".to_owned() {
        Ok(Taxon::Reign)
    } else if l == "phylum".to_owned() {
        Ok(Taxon::Phylum)
    } else if l == "class".to_owned() {
        Ok(Taxon::Class)
    } else if l == "order".to_owned() {
        Ok(Taxon::Order)
    } else if l == "family".to_owned() {
        Ok(Taxon::Family)
    } else if l == "genus".to_owned() {
        Ok(Taxon::Genus)
    } else if l == "species".to_owned() {
        Ok(Taxon::Species)
    } else {
        Err(NoSuchTaxon(input.to_owned()))
    }
}

/// A taxref entry.
#[derive(Debug, Clone)]
pub struct Entry {
    /// Reign of the species.
    pub reign: String,
    /// Phylum of the species.
    pub phylum: String,
    /// Class of the species.
    pub class: String,
    /// Order of the species.
    pub order: String,
    /// Family of the species.
    pub family: String,
    /// Genus of the species (sub-family).
    pub genus: String,
    /// Rank of the species.
    pub rank: String,
    /// Name of the species.
    pub name: String,
    /// Full name of the species.
    pub full_name: String,
    /// Valid name of the species.
    pub valid_name: String,
    /// Habitat of the species.
    pub habitat: String,
    /// Whether the species is present in france or not.
    pub fr: String,
}

/// The fields of an entry, as plain character sequences.
pub struct EntryV {
    /// Reign of the species.
    pub reign: Seq<char>,
    /// Phylum of the species.
    pub phylum: Seq<char>,
    /// Class of the species.
    pub class: Seq<char>,
    /// Order of the species.
    pub order: Seq<char>,
    /// Family of the species.
    pub family: Seq<char>,
    /// Genus of the species.
    pub genus: Seq<char>,
    /// Rank of the species.
    pub rank: Seq<char>,
    /// Name of the species.
    pub name: Seq<char>,
    /// Full name of the species.
    pub full_name: Seq<char>,
    /// Valid name of the species.
    pub valid_name: Seq<char>,
    /// Habitat of the species.
    pub habitat: Seq<char>,
    /// Presence marker of the species.
    pub fr: Seq<char>,
}

/// The character sequences of an entry's fields.
pub open spec fn entry_view(e: Entry) -> EntryV {
    EntryV {
        reign: e.reign@,
        phylum: e.phylum@,
        class: e.class@,
        order: e.order@,
        family: e.family@,
        genus: e.genus@,
        rank: e.rank@,
        name: e.name@,
        full_name: e.full_name@,
        valid_name: e.valid_name@,
        habitat: e.habitat@,
        fr: e.fr@,
    }
}

// ---------------------------------------------------------------------------
// Line parsing
// ---------------------------------------------------------------------------

/// The fields of `s` after `cur`, split on the separator character; empty
/// fields are kept, so there is always one more field than separators.
pub open spec fn split_acc(cur: Seq<char>, s: Seq<char>, sep: char) -> Seq<Seq<char>>
    decreases s.len(),
{
    if s.len() == 0 {
        seq![cur]
    } else if s[0] == sep {
        seq![cur] + split_acc(Seq::empty(), s.drop_first(), sep)
    } else {
        split_acc(cur.push(s[0]), s.drop_first(), sep)
    }
}

/// The tab-separated fields of a line.
pub open spec fn split_tabs(s: Seq<char>) -> Seq<Seq<char>> {
    split_acc(Seq::empty(), s, '\t')
}

/// `s` with every double quote removed.
pub open spec fn strip_quotes(s: Seq<char>) -> Seq<char>
    decreases s.len(),
{
    if s.len() == 0 {
        Seq::empty()
    } else {
        let rest = strip_quotes(s.drop_last());
        if s.last() == '"' {
            rest
        } else {
            rest.push(s.last())
        }
    }
}

/// The cleaned fields of a taxref line: tab-separated, quotes removed.
pub open spec fn line_fields(line: Seq<char>) -> Seq<Seq<char>> {
    split_tabs(line).map_values(|f: Seq<char>| strip_quotes(f))
}

/// The entry described by a taxref line with enough fields.
pub open spec fn line_entry(line: Seq<char>) -> EntryV {
    let fields = line_fields(line);
    EntryV {
        reign: fields[0],
        phylum: fields[1],
        class: fields[2],
        order: fields[3],
        family: fields[4],
        genus: fields[5],
        rank: fields[14],
        name: fields[15],
        full_name: fields[17],
        valid_name: fields[19],
        habitat: fields[22],
        fr: fields[23],
    }
}

/// Splits a character sequence on a separator, keeping empty fields.
fn split_on_char(v: &Vec<char>, sep: char) -> (r: Vec<Vec<char>>)
    ensures
        r.deep_view() == split_acc(Seq::empty(), v@, sep),
{
    let mut r: Vec<Vec<char>> = Vec::new();
    let mut cur: Vec<char> = Vec::new();
    let mut i: usize = 0;
    proof {
        assert(v@.skip(0) =~= v@);
    }
    while i < v.len()
        invariant
            i <= v.len(),
            split_acc(Seq::empty(), v@, sep) == r.deep_view() + split_acc(
                cur@,
                v@.skip(i as int),
                sep,
            ),
        decreases v.len() - i,
    {
        let c = v[i];
        proof {
            assert(v@.skip(i as int).drop_first() =~= v@.skip(i + 1 as int));
            assert(v@.skip(i as int)[0] == v@[i as int]);
        }
        if c == sep {
            let ghost old_r = r.deep_view();
            let w = cur;
            r.push(w);
            cur = Vec::new();
            proof {
                assert(r.deep_view() =~~= old_r.push(w@));
                assert(old_r + (seq![w@] + split_acc(Seq::<char>::empty(), v@.skip(i + 1 as int), sep))
                    =~= r.deep_view() + split_acc(cur@, v@.skip(i + 1 as int), sep));
            }
        } else {
            cur.push(c);
        }
        i += 1;
    }
    proof {
        assert(v@.skip(v@.len() as int) =~= Seq::<char>::empty());
    }
    let ghost old_r = r.deep_view();
    let w = cur;
    r.push(w);
    proof {
        assert(r.deep_view() =~~= old_r.push(w@));
        assert(old_r + seq![w@] =~= old_r.push(w@));
    }
    r
}

/// Removes every double quote of a character sequence.
fn strip_quotes_chars(v: &Vec<char>) -> (r: Vec<char>)
    ensures
        r@ == strip_quotes(v@),
{
    let mut r: Vec<char> = Vec::new();
    let mut i: usize = 0;
    while i < v.len()
        invariant
            i <= v.len(),
            r@ == strip_quotes(v@.take(i as int)),
        decreases v.len() - i,
    {
        let c = v[i];
        proof {
            assert(v@.take(i + 1 as int).drop_last() =~= v@.take(i as int));
            assert(v@.take(i + 1 as int).last() == v@[i as int]);
        }
        if c != '"' {
            r.push(c);
        }
        i += 1;
    }
    proof {
        assert(v@.take(v@.len() as int) =~= v@);
    }
    r
}

/// Splits a line in cleaned fields: tab-separated, quotes removed.
fn line_fields_exec(line: &str) -> (r: Vec<Vec<char>>)
    ensures
        r.deep_view() == line_fields(line@),
        r@.len() == split_tabs(line@).len(),
{
    let chars = str_chars(line);
    let raw = split_on_char(&chars, '\t');
    let mut r: Vec<Vec<char>> = Vec::new();
    let mut i: usize = 0;
    while i < raw.len()
        invariant
            i <= raw.len(),
            raw.deep_view() == split_tabs(line@),
            r.deep_view() == split_tabs(line@).map_values(|f: Seq<char>| strip_quotes(f)).take(
                i as int,
            ),
        decreases raw.len() - i,
    {
        let ghost old_r = r.deep_view();
        let f = strip_quotes_chars(&raw[i]);
        proof {
            assert(raw@[i as int]@ == raw.deep_view()[i as int]);
        }
        r.push(f);
        proof {
            let m = split_tabs(line@).map_values(|f: Seq<char>| strip_quotes(f));
            assert(r.deep_view() =~~= old_r.push(f@));
            assert(m.take(i + 1 as int) =~= m.take(i as int).push(m[i as int]));
        }
        i += 1;
    }
    proof {
        let m = split_tabs(line@).map_values(|f: Seq<char>| strip_quotes(f));
        assert(m.take(m.len() as int) =~= m);
    }
    r
}

/// How many tab-separated fields a line has; `from_line` asks for at least
/// 24 of them.
pub fn line_field_count(line: &str) -> (r: usize)
    ensures
        r == split_tabs(line@).len(),
{
    let fields = line_fields_exec(line);
    fields.len()
}

impl Entry {
    /// Returns true if the entry corresponds to a species.
    pub fn is_species(&self) -> (r: bool)
        ensures
            r == (self.rank@ == "ES"@),
    {
        self.rank == "ES".to_owned()
    }

    /// Returns true if the entry is present in france.
    pub fn is_present_france(&self) -> (r: bool)
        ensures
            r == (self.fr@ == "P"@ || self.fr@ == "E"@ || self.fr@ == "I"@ || self.fr@ == "S"@
                || self.fr@ == "C"@ || self.fr@ == "J"@ || self.fr@ == "M"@ || self.fr@ == "B"@),
    {
        self.fr == "P".to_owned() || self.fr == "E".to_owned() || self.fr == "I".to_owned()
            || self.fr == "S".to_owned() || self.fr == "C".to_owned() || self.fr == "J".to_owned()
            || self.fr == "M".to_owned() || self.fr == "B".to_owned()
    }

    /// Returns true if the entry is terrestrial.
    pub fn is_terrestrial(&self) -> (r: bool)
        ensures
            r == (self.habitat@ == "2"@ || self.habitat@ == "3"@ || self.habitat@ == "5"@
                || self.habitat@ == "7"@ || self.habitat@ == "8"@),
    {
        self.habitat == "2".to_owned() || self.habitat == "3".to_owned() || self.habitat
            == "5".to_owned() || self.habitat == "7".to_owned() || self.habitat == "8".to_owned()
    }

    /// Returns true if the entry must be considered.
    pub fn filter(&self) -> (r: bool)
        ensures
            r == entry_filter(entry_view(*self)),
    {
        self.is_species() && self.is_present_france() && self.is_terrestrial()
    }

    /// Returns the corresponding name of the taxonomic level given as
    /// argument.
    pub fn get_taxon(&self, level: Taxon) -> (r: &str)
        ensures
            r@ == get_taxon_of(entry_view(*self), level),
    {
        match level {
            Taxon::Reign => self.reign.as_str(),
            Taxon::Phylum => self.phylum.as_str(),
            Taxon::Class => self.class.as_str(),
            Taxon::Order => self.order.as_str(),
            Taxon::Family => self.family.as_str(),
            Taxon::Genus => self.genus.as_str(),
            Taxon::Species => self.valid_name.as_str(),
        }
    }

    /// Recreates an entry from a line in taxref.
    pub fn from_line(line: &str) -> (r: Result<Entry, Error>)
        requires
            split_tabs(line@).len() >= 24,
        ensures
            r matches Ok(e) && entry_view(e) == line_entry(line@),
    {
        let fields = line_fields_exec(line);
        proof {
            assert(forall|k: int|
                0 <= k < fields@.len() ==> fields@[k]@ == #[trigger] fields.deep_view()[k]);
        }
        Ok(
            Entry {
                reign: chars_to_string(&fields[0]),
                phylum: chars_to_string(&fields[1]),
                class: chars_to_string(&fields[2]),
                order: chars_to_string(&fields[3]),
                family: chars_to_string(&fields[4]),
                genus: chars_to_string(&fields[5]),
                rank: chars_to_string(&fields[14]),
                name: chars_to_string(&fields[15]),
                full_name: chars_to_string(&fields[17]),
                valid_name: chars_to_string(&fields[19]),
                habitat: chars_to_string(&fields[22]),
                fr: chars_to_string(&fields[23]),
            },
        )
    }
}

impl SpeciesTrait for Entry {
    open spec fn valid_name_spec(&self) -> Seq<char> {
        self.valid_name@
    }

    fn valid_name(&self) -> (r: &str) {
        self.valid_name.as_str()
    }
}

/// Whether an entry passes the species / presence / habitat filter.
pub open spec fn entry_filter(e: EntryV) -> bool {
    &&& e.rank == "ES"@
    &&& (e.fr == "P"@ || e.fr == "E"@ || e.fr == "I"@ || e.fr == "S"@ || e.fr == "C"@ || e.fr
        == "J"@ || e.fr == "M"@ || e.fr == "B"@)
    &&& (e.habitat == "2"@ || e.habitat == "3"@ || e.habitat == "5"@ || e.habitat == "7"@
        || e.habitat == "8"@)
}

/// The field of an entry at a taxonomic level.
pub open spec fn get_taxon_of(e: EntryV, level: Taxon) -> Seq<char> {
    match level {
        Taxon::Reign => e.reign,
        Taxon::Phylum => e.phylum,
        Taxon::Class => e.class,
        Taxon::Order => e.order,
        Taxon::Family => e.family,
        Taxon::Genus => e.genus,
        Taxon::Species => e.valid_name,
    }
}


// ---------------------------------------------------------------------------
// Collecting the entries that match a query
// ---------------------------------------------------------------------------

/// The entries collected from the lines of the reference file (its header
/// line already removed): non-empty lines with enough fields whose entry
/// passes the filter and whose field at the queried level matches the
/// query case-insensitively, with consecutive duplicate valid names kept
/// once.
pub open spec fn collect_spec(ls: Seq<Seq<char>>, taxon: Taxon, query_l: Seq<char>) -> Seq<EntryV>
    decreases ls.len(),
{
    if ls.len() == 0 {
        Seq::empty()
    } else {
        let rest = collect_spec(ls.drop_last(), taxon, query_l);
        let l = ls.last();
        if l.len() == 0 {
            rest
        } else if split_tabs(l).len() < 24 {
            rest
        } else {
            let e = line_entry(l);
            if entry_filter(e) && lower_of(get_taxon_of(e, taxon)) == query_l && !(rest.len() > 0
                && rest.last().valid_name == e.valid_name) {
                rest.push(e)
            } else {
                rest
            }
        }
    }
}

/// The lines of the reference file after its header line.
pub open spec fn body_lines(ls: Seq<Seq<char>>) -> Seq<Seq<char>> {
    if ls.len() == 0 {
        Seq::empty()
    } else {
        ls.skip(1)
    }
}

impl Entry {
    /// Retrieves all the entries matching a query at a taxonomic level from
    /// the lines of the reference file, whose first line is a header.
    ///
    /// Lines without enough fields are passed over, as the reference file
    /// has none.
    pub fn from_taxon_lines(lines: &Vec<String>, taxon: Taxon, query: &str) -> (r: Vec<Entry>)
        ensures
            r@.map_values(|e: Entry| entry_view(e)) == collect_spec(
                body_lines(lines.deep_view()),
                taxon,
                lower_of(query@),
            ),
    {
        let ghost body = body_lines(lines.deep_view());
        let query_l = to_lowercase(query);
        let mut entries: Vec<Entry> = Vec::new();
        if lines.len() == 0 {
            proof {
                assert(entries@.map_values(|e: Entry| entry_view(e)) =~= collect_spec(
                    body,
                    taxon,
                    lower_of(query@),
                ));
            }
            return entries;
        }
        let n = lines.len();
        let mut i: usize = 1;
        while i < n
            invariant
                1 <= i <= n,
                n == lines@.len(),
                body == body_lines(lines.deep_view()),
                query_l@ == lower_of(query@),
                entries@.map_values(|e: Entry| entry_view(e)) == collect_spec(
                    body.take(i - 1),
                    taxon,
                    query_l@,
                ),
            decreases n - i,
        {
            let ghost prev = entries@.map_values(|e: Entry| entry_view(e));
            proof {
                assert(body.take(i as int).drop_last() =~= body.take(i - 1));
                assert(body.take(i as int).last() == lines.deep_view()[i as int]);
                assert(lines.deep_view()[i as int] == lines@[i as int]@);
            }
            let line = &lines[i];
            let keep: Option<Entry> = if line.as_str().is_empty() {
                None
            } else if line_field_count(line.as_str()) < 24 {
                None
            } else {
                match Entry::from_line(line.as_str()) {
                    Ok(e) => {
                        let matches_query = e.filter() && to_lowercase(e.get_taxon(taxon))
                            == query_l;
                        if matches_query {
                            if entries.len() > 0 && entries[entries.len() - 1].valid_name
                                == e.valid_name {
                                None
                            } else {
                                Some(e)
                            }
                        } else {
                            None
                        }
                    },
                    Err(_) => None,
                }
            };
            match keep {
                Some(e) => {
                    entries.push(e);
                    proof {
                        assert(entries@.map_values(|e: Entry| entry_view(e)) =~= prev.push(
                            entry_view(entries@.last()),
                        ));
                    }
                },
                None => (),
            }
            proof {
                if prev.len() > 0 {
                    assert(prev.last() == entry_view(entries@[prev.len() - 1]));
                }
                assert(entries@.map_values(|e: Entry| entry_view(e)) =~= collect_spec(
                    body.take(i as int),
                    taxon,
                    query_l@,
                ));
            }
            i += 1;
        }
        proof {
            assert(body.take(n - 1) =~= body);
        }
        entries
    }
}


} // verus!
