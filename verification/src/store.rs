//! The source list formats: the CSV layout of stream endpoints and the choice
//! of format by file extension.
use vstd::prelude::*;
use crate::types::{NodeStatus, StreamNode, StreamNodeView, views, opt_chars};
use crate::text::{is_blank, is_blank_spec, is_white_space, same_chars};

verus! {

/// Why a source list could not be read.
#[derive(Debug, Clone, PartialEq, Eq)]
pub enum StoreError {
    /// The CSV reader could not read the record at the given line (records
    /// of unequal length, a data record that is not UTF-8...); the reader's
    /// message.
    Csv { line: usize, message: String },
    /// The header names one of the known columns twice; reported at the
    /// given line (that of the first data record).
    DuplicateColumn { line: usize },
    /// A required column is absent from the header; reported at the given
    /// line (that of the first data record).
    MissingColumn { line: usize, column: CsvColumn },
    /// The file extension is neither `json` nor `csv`; the extension found.
    UnsupportedFormat(Option<String>),
}

/// The columns of a CSV source list.
#[derive(Debug, Clone, Copy, PartialEq, Eq, Structural)]
pub enum CsvColumn {
    Name,
    PrimaryUrl,
    SecondaryUrl,
    IpAddress,
}

/// The line of a CSV file that holds its first data record (the header is line 1).
pub const FIRST_RECORD_LINE: usize = 2;

/// The header title of a column.
pub open spec fn column_title(c: CsvColumn) -> Seq<char> {
    match c {
        CsvColumn::Name => seq!['n', 'a', 'm', 'e'],
        CsvColumn::PrimaryUrl => seq!['p', 'r', 'i', 'm', 'a', 'r', 'y', '_', 'u', 'r', 'l'],
        CsvColumn::SecondaryUrl => seq![
            's', 'e', 'c', 'o', 'n', 'd', 'a', 'r', 'y', '_', 'u', 'r', 'l',
        ],
        CsvColumn::IpAddress => seq!['i', 'p', '_', 'a', 'd', 'd', 'r', 'e', 's', 's'],
    }
}

/// What the `csv` crate's reader (default dialect, first record as header)
/// reads from a document: the header record, or `None` when it is not valid
/// UTF-8; the data records read before the reader's first error; and the
/// message of that error (its `Display` text), or `None` when there was none.
pub uninterp spec fn csv_read(data: Seq<u8>) -> (Option<Seq<Seq<char>>>, Seq<Seq<Seq<char>>>, Option<Seq<char>>);

/// The characters of the fields of a record.
pub open spec fn fields_chars(fields: Seq<String>) -> Seq<Seq<char>> {
    fields.map_values(|f: String| f@)
}

/// The characters of the fields of an optional record.
pub open spec fn opt_fields_chars(fields: Option<Vec<String>>) -> Option<Seq<Seq<char>>> {
    match fields {
        Some(f) => Some(fields_chars(f@)),
        None => None,
    }
}

/// The characters of the fields of records.
pub open spec fn rows_chars(rows: Seq<Vec<String>>) -> Seq<Seq<Seq<char>>> {
    rows.map_values(|r: Vec<String>| fields_chars(r@))
}

/// Reads a CSV document with the `csv` crate as a header and data records:
/// `csv::Reader::from_reader` (default dialect, headers on), `Reader::headers`
/// with an error taken as no header, then `Reader::records` up to its first
/// error, each `StringRecord` turned into its fields. Trusted: the header,
/// the records read and whether an error stopped the reading are
/// `csv_read` of the bytes, the reader's error message (its `Display` text)
/// coming last.
/// What the reader accepts and how it splits fields is not stated here.
#[verifier::external_body]
fn read_csv(data: &[u8]) -> (res: (Option<Vec<String>>, Vec<Vec<String>>, Option<String>))
    ensures
        csv_read(data@) == (opt_fields_chars(res.0), rows_chars(res.1@), opt_chars(res.2)),
{
    let mut reader = csv::Reader::from_reader(data);
    let header: Option<Vec<String>> = reader.headers().ok().map(|h| h.iter().map(String::from).collect());
    let mut records: Vec<Vec<String>> = Vec::new();
    for record in reader.records() {
        match record {
            Ok(r) => records.push(r.iter().map(String::from).collect()),
            Err(e) => return (header, records, Some(e.to_string())),
        }
    }
    (header, records, None)
}

/// Index of the first header field equal to `title`.
pub open spec fn first_index(header: Seq<Seq<char>>, title: Seq<char>) -> Option<int>
    decreases header.len(),
{
    if header.len() == 0 {
        None
    } else {
        match first_index(header.drop_last(), title) {
            Some(i) => Some(i),
            None => if header.last() == title {
                Some(header.len() - 1)
            } else {
                None
            },
        }
    }
}

/// How many header fields equal `title`.
pub open spec fn occurrences(header: Seq<Seq<char>>, title: Seq<char>) -> nat
    decreases header.len(),
{
    if header.len() == 0 {
        0
    } else {
        occurrences(header.drop_last(), title) + if header.last() == title {
            1nat
        } else {
            0nat
        }
    }
}

/// Whether the header names a known column more than once.
pub open spec fn has_duplicate_column(header: Seq<Seq<char>>) -> bool {
    ||| occurrences(header, column_title(CsvColumn::Name)) >= 2
    ||| occurrences(header, column_title(CsvColumn::PrimaryUrl)) >= 2
    ||| occurrences(header, column_title(CsvColumn::SecondaryUrl)) >= 2
    ||| occurrences(header, column_title(CsvColumn::IpAddress)) >= 2
}

/// The position of a column in the records: that of its first title in the
/// header, or, when the header is not readable, the column's place in the
/// order `name,primary_url,secondary_url,ip_address`.
pub open spec fn column_index(header: Option<Seq<Seq<char>>>, col: CsvColumn) -> Option<int> {
    match header {
        Some(h) => first_index(h, column_title(col)),
        None => Some(
            match col {
                CsvColumn::Name => 0,
                CsvColumn::PrimaryUrl => 1,
                CsvColumn::SecondaryUrl => 2,
                CsvColumn::IpAddress => 3,
            },
        ),
    }
}

/// What is wrong with a header, if anything: a duplicated known column, else
/// a missing `name`, else a missing `primary_url` column. A header that is
/// not readable has nothing wrong: records are then read by position.
pub open spec fn header_error(header: Option<Seq<Seq<char>>>) -> Option<StoreError> {
    match header {
        None => None,
        Some(h) => if has_duplicate_column(h) {
            Some(StoreError::DuplicateColumn { line: FIRST_RECORD_LINE })
        } else if first_index(h, column_title(CsvColumn::Name)) is None {
            Some(StoreError::MissingColumn { line: FIRST_RECORD_LINE, column: CsvColumn::Name })
        } else if first_index(h, column_title(CsvColumn::PrimaryUrl)) is None {
            Some(
                StoreError::MissingColumn { line: FIRST_RECORD_LINE, column: CsvColumn::PrimaryUrl },
            )
        } else {
            None
        },
    }
}

/// The cell of a record in a column, empty when the column is absent or the
/// record is too short to reach it.
pub open spec fn cell(row: Seq<Seq<char>>, index: Option<int>) -> Seq<char> {
    match index {
        Some(i) => if i < row.len() {
            row[i]
        } else {
            Seq::empty()
        },
        None => Seq::empty(),
    }
}

/// Whether a record is too short to hold the cell of a column that exists.
pub open spec fn lacks_cell(row: Seq<Seq<char>>, index: Option<int>) -> bool {
    match index {
        Some(i) => i >= row.len(),
        None => false,
    }
}

/// The line of the data record with the given index (the header is line 1),
/// saturating at the largest `usize`.
pub open spec fn line_of(index: int) -> usize {
    if index + 2 <= usize::MAX {
        (index + 2) as usize
    } else {
        usize::MAX
    }
}

/// The line of the data record with the given index.
pub fn record_line(index: usize) -> (l: usize)
    ensures
        l == line_of(index as int),
{
    match index.checked_add(FIRST_RECORD_LINE) {
        Some(l) => l,
        None => usize::MAX,
    }
}

/// What is wrong with the data record of the given index under a sound
/// header: it is too short to hold its `name`, else its `primary_url`.
pub open spec fn record_error(header: Option<Seq<Seq<char>>>, row: Seq<Seq<char>>, index: int) -> Option<StoreError> {
    if lacks_cell(row, column_index(header, CsvColumn::Name)) {
        Some(StoreError::MissingColumn { line: line_of(index), column: CsvColumn::Name })
    } else if lacks_cell(row, column_index(header, CsvColumn::PrimaryUrl)) {
        Some(StoreError::MissingColumn { line: line_of(index), column: CsvColumn::PrimaryUrl })
    } else {
        None
    }
}

/// The error of the first faulty record of `data`, whose first record has index `first`.
pub open spec fn records_error(header: Option<Seq<Seq<char>>>, data: Seq<Seq<Seq<char>>>, first: int) -> Option<
    StoreError,
>
    decreases data.len(),
{
    if data.len() == 0 {
        None
    } else {
        match record_error(header, data[0], first) {
            Some(e) => Some(e),
            None => records_error(header, data.drop_first(), first + 1),
        }
    }
}

/// An optional cell: a blank cell means the value is absent.
pub open spec fn optional_cell(s: Seq<char>) -> Option<Seq<char>> {
    if is_blank_spec(s) {
        None
    } else {
        Some(s)
    }
}

/// The node a data record describes, under the given header.
pub open spec fn node_from_row(header: Option<Seq<Seq<char>>>, row: Seq<Seq<char>>) -> StreamNodeView {
    StreamNodeView {
        name: cell(row, column_index(header, CsvColumn::Name)),
        primary_url: cell(row, column_index(header, CsvColumn::PrimaryUrl)),
        secondary_url: optional_cell(cell(row, column_index(header, CsvColumn::SecondaryUrl))),
        ip_address: optional_cell(cell(row, column_index(header, CsvColumn::IpAddress))),
        status: NodeStatus::Unknown,
        last_checked: None,
    }
}

/// Why a CSV source list gives no nodes.
pub enum CsvFailure {
    /// A header or record problem.
    Rejected(StoreError),
    /// The reader stopped on an error at the given line.
    Unreadable { line: usize },
}

/// The nodes a CSV source list describes, from what the reader read: each
/// data record is a node, records being taken in order and the first
/// problem reported. A header problem is reported at the first data record
/// (a list without data records has none), then a record too short to hold a
/// required cell at its own line; after the last record read, an error of the
/// reader at the line of the record it could not read.
pub open spec fn csv_nodes(
    header: Option<Seq<Seq<char>>>,
    records: Seq<Seq<Seq<char>>>,
    unreadable: bool,
) -> Result<Seq<StreamNodeView>, CsvFailure> {
    if records.len() > 0 && header_error(header) is Some {
        Err(CsvFailure::Rejected(header_error(header)->0))
    } else {
        match records_error(header, records, 0) {
            Some(e) => Err(CsvFailure::Rejected(e)),
            None => if unreadable {
                Err(CsvFailure::Unreadable { line: line_of(records.len() as int) })
            } else {
                Ok(records.map_values(|r: Seq<Seq<char>>| node_from_row(header, r)))
            },
        }
    }
}

/// The column a header field names, if it names one.
pub fn column_of(field: &str) -> (c: Option<CsvColumn>)
    ensures
        match c {
            Some(col) => field@ == column_title(col),
            None => field@ != column_title(CsvColumn::Name) && field@ != column_title(
                CsvColumn::PrimaryUrl,
            ) && field@ != column_title(CsvColumn::SecondaryUrl) && field@ != column_title(
                CsvColumn::IpAddress,
            ),
        },
{
    proof {
        reveal_strlit("name");
        reveal_strlit("primary_url");
        reveal_strlit("secondary_url");
        reveal_strlit("ip_address");
        assert("name"@ =~= column_title(CsvColumn::Name));
        assert("primary_url"@ =~= column_title(CsvColumn::PrimaryUrl));
        assert("secondary_url"@ =~= column_title(CsvColumn::SecondaryUrl));
        assert("ip_address"@ =~= column_title(CsvColumn::IpAddress));
    }
    if same_chars(field, "name") {
        Some(CsvColumn::Name)
    } else if same_chars(field, "primary_url") {
        Some(CsvColumn::PrimaryUrl)
    } else if same_chars(field, "secondary_url") {
        Some(CsvColumn::SecondaryUrl)
    } else if same_chars(field, "ip_address") {
        Some(CsvColumn::IpAddress)
    } else {
        None
    }
}

proof fn lemma_first_index(header: Seq<Seq<char>>, title: Seq<char>)
    ensures
        (first_index(header, title) is Some) == (occurrences(header, title) >= 1),
        match first_index(header, title) {
            Some(i) => 0 <= i < header.len() && header[i] == title,
            None => true,
        },
    decreases header.len(),
{
    if header.len() > 0 {
        lemma_first_index(header.drop_last(), title);
    }
}

/// An optional index as an integer.
pub open spec fn opt_index(i: Option<usize>) -> Option<int> {
    match i {
        Some(v) => Some(v as int),
        None => None,
    }
}

/// Where the known columns are in a header.
struct HeaderLayout {
    name: Option<usize>,
    primary_url: Option<usize>,
    secondary_url: Option<usize>,
    ip_address: Option<usize>,
    duplicate: bool,
}

impl HeaderLayout {
    spec fn describes(self, h: Option<Seq<Seq<char>>>) -> bool {
        &&& opt_index(self.name) == column_index(h, CsvColumn::Name)
        &&& opt_index(self.primary_url) == column_index(h, CsvColumn::PrimaryUrl)
        &&& opt_index(self.secondary_url) == column_index(h, CsvColumn::SecondaryUrl)
        &&& opt_index(self.ip_address) == column_index(h, CsvColumn::IpAddress)
        &&& self.duplicate == (h matches Some(hv) && has_duplicate_column(hv))
    }
}

/// Locates the known columns of a header and notes whether one is repeated.
fn header_layout(header: &Vec<String>) -> (l: HeaderLayout)
    ensures
        l.describes(Some(fields_chars(header@))),
{
    let ghost h = fields_chars(header@);
    let mut l = HeaderLayout {
        name: None,
        primary_url: None,
        secondary_url: None,
        ip_address: None,
        duplicate: false,
    };
    let n = header.len();
    let mut i: usize = 0;
    assert(h.take(0) =~= Seq::<Seq<char>>::empty());
    while i < n
        invariant
            n == header@.len(),
            h == fields_chars(header@),
            i <= n,
            l.describes(Some(h.take(i as int))),
        decreases n - i,
    {
        let ghost prev = h.take(i as int);
        let ghost next = h.take(i + 1);
        assert(next.drop_last() =~= prev);
        assert(next.last() == header@[i as int]@);
        proof {
            lemma_first_index(prev, column_title(CsvColumn::Name));
            lemma_first_index(prev, column_title(CsvColumn::PrimaryUrl));
            lemma_first_index(prev, column_title(CsvColumn::SecondaryUrl));
            lemma_first_index(prev, column_title(CsvColumn::IpAddress));
        }
        match column_of(header[i].as_str()) {
            Some(CsvColumn::Name) => {
                if l.name.is_some() {
                    l.duplicate = true;
                } else {
                    l.name = Some(i);
                }
            },
            Some(CsvColumn::PrimaryUrl) => {
                if l.primary_url.is_some() {
                    l.duplicate = true;
                } else {
                    l.primary_url = Some(i);
                }
            },
            Some(CsvColumn::SecondaryUrl) => {
                if l.secondary_url.is_some() {
                    l.duplicate = true;
                } else {
                    l.secondary_url = Some(i);
                }
            },
            Some(CsvColumn::IpAddress) => {
                if l.ip_address.is_some() {
                    l.duplicate = true;
                } else {
                    l.ip_address = Some(i);
                }
            },
            None => {},
        }
        i = i + 1;
    }
    assert(h.take(n as int) =~= h);
    l
}

/// One data record of a CSV source list, by column. A column absent from the
/// header gives an empty cell.
pub struct CsvRecord {
    pub name: String,
    pub primary_url: String,
    pub secondary_url: String,
    pub ip_address: String,
}

impl From<CsvRecord> for StreamNode {
    /// The node a record describes: blank (white-space only) secondary URL or
    /// address cells mean the value is absent; the status is `Unknown` and the
    /// node was never checked.
    fn from(r: CsvRecord) -> (n: StreamNode) {
        let secondary_blank = is_blank(r.secondary_url.as_str());
        let address_blank = is_blank(r.ip_address.as_str());
        StreamNode {
            name: r.name,
            primary_url: r.primary_url,
            secondary_url: if secondary_blank {
                None
            } else {
                Some(r.secondary_url)
            },
            ip_address: if address_blank {
                None
            } else {
                Some(r.ip_address)
            },
            status: NodeStatus::Unknown,
            last_checked: None,
        }
    }
}

impl vstd::std_specs::convert::FromSpecImpl<CsvRecord> for StreamNode {
    open spec fn obeys_from_spec() -> bool {
        true
    }

    open spec fn from_spec(r: CsvRecord) -> StreamNode {
        StreamNode {
            name: r.name,
            primary_url: r.primary_url,
            secondary_url: if is_blank_spec(r.secondary_url@) {
                None
            } else {
                Some(r.secondary_url)
            },
            ip_address: if is_blank_spec(r.ip_address@) {
                None
            } else {
                Some(r.ip_address)
            },
            status: NodeStatus::Unknown,
            last_checked: None,
        }
    }
}

/// The cell of `row` at an optional column index.
fn cell_at(row: &Vec<String>, index: Option<usize>) -> (c: String)
    ensures
        c@ == cell(fields_chars(row@), opt_index(index)),
{
    match index {
        Some(i) => if i < row.len() {
            row[i].clone()
        } else {
            String::new()
        },
        None => String::new(),
    }
}

proof fn lemma_records_error_step(header: Option<Seq<Seq<char>>>, data: Seq<Seq<Seq<char>>>, k: int)
    requires
        0 <= k < data.len(),
        record_error(header, data[k], k) is None,
    ensures
        records_error(header, data.subrange(k, data.len() as int), k) == records_error(
            header,
            data.subrange(k + 1, data.len() as int),
            k + 1,
        ),
{
    assert(data.subrange(k, data.len() as int).drop_first() =~= data.subrange(k + 1, data.len() as int));
}

/// Where the known columns are when the header is not readable: in the
/// order `name,primary_url,secondary_url,ip_address`.
fn positional_layout() -> (l: HeaderLayout)
    ensures
        l.describes(None),
{
    HeaderLayout {
        name: Some(0),
        primary_url: Some(1),
        secondary_url: Some(2),
        ip_address: Some(3),
        duplicate: false,
    }
}

/// Converts what the CSV reader read into nodes: the header record (`None`
/// when it was not readable, records then being read by position), the data
/// records in order, and the reader's error message if it stopped on one.
/// With data records, a header that repeats a known column, or lacks `name`
/// or `primary_url`, is an error reported at the first data record. A record
/// too short to hold its `name` or `primary_url` cell is an error at its line
/// (the header is line 1). After the last record, the reader's error, if
/// any, is reported at the line of the record it could not read. Otherwise
/// each data record gives one node, in order, a cell missing from a short
/// record counting as empty.
pub fn nodes_from_csv_records(header: &Option<Vec<String>>, records: &Vec<Vec<String>>, failure: &Option<String>) -> (res: Result<Vec<StreamNode>, StoreError>)
    ensures
        match csv_nodes(opt_fields_chars(*header), rows_chars(records@), failure is Some) {
            Ok(v) => res matches Ok(nodes) && views(nodes@) == v,
            Err(CsvFailure::Rejected(e)) => res == Err::<Vec<StreamNode>, StoreError>(e),
            Err(CsvFailure::Unreadable { line }) => res == Err::<Vec<StreamNode>, StoreError>(
                StoreError::Csv { line, message: failure->0 },
            ),
        },
{
    let ghost h = opt_fields_chars(*header);
    let ghost rc = rows_chars(records@);
    let layout = match header {
        Some(fields) => header_layout(fields),
        None => positional_layout(),
    };
    let n = records.len();
    if n > 0 {
        if layout.duplicate {
            return Err(StoreError::DuplicateColumn { line: FIRST_RECORD_LINE });
        }
        if layout.name.is_none() {
            return Err(StoreError::MissingColumn { line: FIRST_RECORD_LINE, column: CsvColumn::Name });
        }
        if layout.primary_url.is_none() {
            return Err(
                StoreError::MissingColumn { line: FIRST_RECORD_LINE, column: CsvColumn::PrimaryUrl },
            );
        }
    }
    assert(rc.subrange(0, rc.len() as int) =~= rc);
    let mut nodes: Vec<StreamNode> = Vec::new();
    let mut k: usize = 0;
    while k < n
        invariant
            n == records@.len(),
            rc == rows_chars(records@),
            h == opt_fields_chars(*header),
            0 < n ==> header_error(h) is None,
            k <= n,
            layout.describes(h),
            0 < n ==> layout.name is Some,
            0 < n ==> layout.primary_url is Some,
            records_error(h, rc, 0) == records_error(h, rc.subrange(k as int, rc.len() as int), k as int),
            nodes@.len() == k,
            forall|j: int| 0 <= j < k ==> #[trigger] nodes@[j]@ == node_from_row(h, rc[j]),
        decreases n - k,
    {
        let row = &records[k];
        assert(fields_chars(row@) == rc[k as int]);
        assert(rc.subrange(k as int, rc.len() as int)[0] == rc[k as int]);
        let name_col = match layout.name {
            Some(i) => i,
            None => 0,
        };
        let primary_col = match layout.primary_url {
            Some(i) => i,
            None => 0,
        };
        if name_col >= row.len() {
            return Err(StoreError::MissingColumn { line: record_line(k), column: CsvColumn::Name });
        }
        if primary_col >= row.len() {
            return Err(StoreError::MissingColumn { line: record_line(k), column: CsvColumn::PrimaryUrl });
        }
        proof {
            lemma_records_error_step(h, rc, k as int);
        }
        let record = CsvRecord {
            name: cell_at(row, layout.name),
            primary_url: cell_at(row, layout.primary_url),
            secondary_url: cell_at(row, layout.secondary_url),
            ip_address: cell_at(row, layout.ip_address),
        };
        let node = StreamNode::from(record);
        assert(node@ == node_from_row(h, rc[k as int]));
        nodes.push(node);
        k = k + 1;
    }
    assert(rc.subrange(n as int, rc.len() as int).len() == 0);
    match failure {
        Some(message) => Err(StoreError::Csv { line: record_line(n), message: message.clone() }),
        None => {
            assert(views(nodes@) =~= rc.map_values(|r: Seq<Seq<char>>| node_from_row(h, r)));
            Ok(nodes)
        },
    }
}

/// Reads a CSV source list with the `csv` crate: header `name,primary_url,secondary_url,ip_address`
/// (in any order; `secondary_url` and `ip_address` may be left out; a header
/// that is not UTF-8 makes the records read by position in that order), one
/// node per further record. Blank optional cells mean the value is absent.
/// When the reader stops on an error, the result is that error, with the
/// reader's message, at the line of the record it could not read.
pub fn parse_csv_sources(data: &[u8]) -> (res: Result<Vec<StreamNode>, StoreError>)
    ensures
        match csv_nodes(csv_read(data@).0, csv_read(data@).1, csv_read(data@).2 is Some) {
            Ok(v) => res matches Ok(nodes) && views(nodes@) == v,
            Err(CsvFailure::Rejected(e)) => res == Err::<Vec<StreamNode>, StoreError>(e),
            Err(CsvFailure::Unreadable { line }) => res matches Err(
                StoreError::Csv { line: l, message: m },
            ) && l == line && Some(m@) == csv_read(data@).2,
        },
{
    let (header, records, failure) = read_csv(data);
    nodes_from_csv_records(&header, &records, &failure)
}

/// The formats a source list can be stored in.
#[derive(Debug, Clone, Copy, PartialEq, Eq, Structural)]
pub enum SourceFormat {
    Json,
    Csv,
}

/// The extension of a path as `std::path::Path::extension` finds it (the
/// part of the file name after its last `.`), or `None` when it finds none.
/// It follows std's path rules for the target platform: which characters
/// separate components (`/`, and on Windows also `\`) and so where the file
/// name starts.
pub uninterp spec fn path_extension(path: Seq<char>) -> Option<Seq<char>>;

/// The extension of a path: `std::path::Path::extension` of the path, as a
/// string. Trusted: the result is `path_extension` of the path; which part of
/// the path that is (the rules for file names, leading dots, trailing
/// separators) is not stated here.
#[verifier::external_body]
fn file_extension(path: &str) -> (ext: Option<String>)
    ensures
        opt_chars(ext) == path_extension(path@),
{
    match std::path::Path::new(path).extension() {
        Some(e) => e.to_str().map(String::from),
        None => None,
    }
}

/// The format an extension stands for: `json` or `csv`, anything else
/// (or no extension) being unsupported.
pub open spec fn format_of_extension(ext: Option<Seq<char>>) -> Option<SourceFormat> {
    if ext == Some(seq!['j', 's', 'o', 'n']) {
        Some(SourceFormat::Json)
    } else if ext == Some(seq!['c', 's', 'v']) {
        Some(SourceFormat::Csv)
    } else {
        None
    }
}

/// The format of a source list with the given extension; other extensions
/// are refused with the extension found.
pub fn format_for_extension(ext: Option<String>) -> (res: Result<SourceFormat, StoreError>)
    ensures
        match format_of_extension(opt_chars(ext)) {
            Some(f) => res == Ok::<SourceFormat, StoreError>(f),
            None => res == Err::<SourceFormat, StoreError>(StoreError::UnsupportedFormat(ext)),
        },
{
    proof {
        reveal_strlit("json");
        reveal_strlit("csv");
        assert("json"@ =~= seq!['j', 's', 'o', 'n']);
        assert("csv"@ =~= seq!['c', 's', 'v']);
    }
    let found = match &ext {
        Some(e) => {
            if same_chars(e.as_str(), "json") {
                Some(SourceFormat::Json)
            } else if same_chars(e.as_str(), "csv") {
                Some(SourceFormat::Csv)
            } else {
                None
            }
        },
        None => None,
    };
    match found {
        Some(f) => Ok(f),
        None => Err(StoreError::UnsupportedFormat(ext)),
    }
}

/// The format of a source list file, chosen by its extension: `.json` or
/// `.csv`; any other file is refused.
pub fn source_format(path: &str) -> (res: Result<SourceFormat, StoreError>)
    ensures
        match format_of_extension(path_extension(path@)) {
            Some(f) => res == Ok::<SourceFormat, StoreError>(f),
            None => res matches Err(StoreError::UnsupportedFormat(e)) && opt_chars(e) == path_extension(
                path@,
            ),
        },
{
    format_for_extension(file_extension(path))
}

/// Law: a CSV source list read without error gives one node per data
/// record, in order, each `Unknown` and never checked, and a present optional
/// value is never blank; a list without data records read without error gives
/// no node, whatever its header.
pub proof fn law_csv_one_node_per_record(
    header: Option<Seq<Seq<char>>>,
    records: Seq<Seq<Seq<char>>>,
    unreadable: bool,
)
    ensures
        records.len() == 0 && !unreadable ==> csv_nodes(header, records, unreadable)
            == Ok::<Seq<StreamNodeView>, CsvFailure>(Seq::empty()),
        match csv_nodes(header, records, unreadable) {
            Ok(v) => {
                &&& !unreadable
                &&& v.len() == records.len()
                &&& forall|i: int|
                    0 <= i < v.len() ==> {
                        &&& (#[trigger] v[i]).status == NodeStatus::Unknown
                        &&& v[i].last_checked is None
                        &&& (v[i].secondary_url matches Some(s) ==> !is_blank_spec(s))
                        &&& (v[i].ip_address matches Some(a) ==> !is_blank_spec(a))
                    }
            },
            Err(_) => true,
        },
{
    if records.len() == 0 {
        assert(records_error(header, records, 0) is None);
        assert(records.map_values(|r: Seq<Seq<char>>| node_from_row(header, r)) =~= Seq::empty());
    }
}

proof fn lemma_first_index_is_first(header: Seq<Seq<char>>, title: Seq<char>, i: int)
    requires
        0 <= i < header.len(),
        header[i] == title,
        forall|j: int| 0 <= j < i ==> header[j] != title,
    ensures
        first_index(header, title) == Some(i),
    decreases header.len(),
{
    if i < header.len() - 1 {
        lemma_first_index_is_first(header.drop_last(), title, i);
    } else {
        lemma_first_index(header.drop_last(), title);
    }
}

/// Law: with a readable header, every column, optional ones included, is
/// read at the first position where the header holds its title, whatever
/// that position is. For a record as wide as the header, the node's field of
/// that column is the record's cell there (for `secondary_url` and
/// `ip_address`: absent exactly when that cell is all white space).
pub proof fn law_csv_column_by_header_title(h: Seq<Seq<char>>, c: CsvColumn, i: int, row: Seq<Seq<char>>)
    requires
        0 <= i < h.len(),
        h[i] == column_title(c),
        forall|j: int| 0 <= j < i ==> h[j] != column_title(c),
        row.len() == h.len(),
    ensures
        column_index(Some(h), c) == Some(i),
        !lacks_cell(row, column_index(Some(h), c)),
        c == CsvColumn::Name ==> node_from_row(Some(h), row).name == row[i],
        c == CsvColumn::PrimaryUrl ==> node_from_row(Some(h), row).primary_url == row[i],
        c == CsvColumn::SecondaryUrl ==> node_from_row(Some(h), row).secondary_url == if (forall|k: int|
            0 <= k < row[i].len() ==> is_white_space(#[trigger] row[i][k])) {
            None
        } else {
            Some(row[i])
        },
        c == CsvColumn::IpAddress ==> node_from_row(Some(h), row).ip_address == if (forall|k: int|
            0 <= k < row[i].len() ==> is_white_space(#[trigger] row[i][k])) {
            None
        } else {
            Some(row[i])
        },
{
    lemma_first_index_is_first(h, column_title(c), i);
}

/// Law: with a readable header that lacks a column's title, that column is
/// absent: its field is empty (the optional ones absent) in every record.
pub proof fn law_csv_absent_column(h: Seq<Seq<char>>, c: CsvColumn, row: Seq<Seq<char>>)
    requires
        forall|j: int| 0 <= j < h.len() ==> h[j] != column_title(c),
    ensures
        column_index(Some(h), c) is None,
        c == CsvColumn::SecondaryUrl ==> node_from_row(Some(h), row).secondary_url is None,
        c == CsvColumn::IpAddress ==> node_from_row(Some(h), row).ip_address is None,
{
    lemma_first_index(h, column_title(c));
    if first_index(h, column_title(c)) is Some {
        let k = first_index(h, column_title(c))->0;
        assert(h[k] == column_title(c));
    }
}

/// Law: the format follows the extension exactly, letter case included:
/// `json` is JSON, `csv` is CSV, and any other extension, or none, is refused.
pub proof fn law_format_by_extension(ext: Option<Seq<char>>)
    ensures
        ext == Some(seq!['j', 's', 'o', 'n']) ==> format_of_extension(ext) == Some(SourceFormat::Json),
        ext == Some(seq!['c', 's', 'v']) ==> format_of_extension(ext) == Some(SourceFormat::Csv),
        (ext != Some(seq!['j', 's', 'o', 'n']) && ext != Some(seq!['c', 's', 'v']))
            ==> format_of_extension(ext) is None,
{
}

/// Law: a readable header that holds each of `name` and `primary_url` and
/// repeats no known column title is accepted; one that repeats a known
/// title is refused as such, at the first data record.
pub proof fn law_csv_header_checks(h: Seq<Seq<char>>, c: CsvColumn, i: int, j: int, n: int, p: int)
    ensures
        (0 <= i < j < h.len() && h[i] == column_title(c) && h[j] == column_title(c))
            ==> header_error(Some(h)) == Some(StoreError::DuplicateColumn { line: 2 }),
        (0 <= n < h.len() && h[n] == column_title(CsvColumn::Name) && 0 <= p < h.len() && h[p]
            == column_title(CsvColumn::PrimaryUrl) && !has_duplicate_column(h)) ==> header_error(
            Some(h),
        ) is None,
        header_error(None) is None,
{
    if 0 <= i < j < h.len() && h[i] == column_title(c) && h[j] == column_title(c) {
        lemma_two_occurrences(h, column_title(c), i, j);
    }
    if 0 <= n < h.len() && h[n] == column_title(CsvColumn::Name) && 0 <= p < h.len() && h[p]
        == column_title(CsvColumn::PrimaryUrl) {
        lemma_occurs_found(h, column_title(CsvColumn::Name), n);
        lemma_occurs_found(h, column_title(CsvColumn::PrimaryUrl), p);
        lemma_first_index(h, column_title(CsvColumn::Name));
        lemma_first_index(h, column_title(CsvColumn::PrimaryUrl));
    }
}

proof fn lemma_occurs_found(h: Seq<Seq<char>>, t: Seq<char>, i: int)
    requires
        0 <= i < h.len(),
        h[i] == t,
    ensures
        occurrences(h, t) >= 1,
    decreases h.len(),
{
    if i < h.len() - 1 {
        lemma_occurs_found(h.drop_last(), t, i);
    }
}

proof fn lemma_two_occurrences(h: Seq<Seq<char>>, t: Seq<char>, i: int, j: int)
    requires
        0 <= i < j < h.len(),
        h[i] == t,
        h[j] == t,
    ensures
        occurrences(h, t) >= 2,
    decreases h.len(),
{
    if j < h.len() - 1 {
        lemma_two_occurrences(h.drop_last(), t, i, j);
    } else {
        lemma_occurs_found(h.drop_last(), t, i);
    }
}

} // verus!
