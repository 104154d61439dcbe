use vstd::prelude::*;
use vstd::string::*;
use crate::error::PlinkError;

verus! {

/// The rows of a delimited file, each a list of fields, the header row
/// first: what the `csv` crate reads from `data` with its default settings,
/// but with the header row handed out like the others. `None` where the
/// crate reports an error (a field that is not UTF-8, a row with another
/// number of fields than the first).
pub uninterp spec fn csv_rows(data: Seq<u8>) -> Option<Seq<Seq<Seq<char>>>>;

/// The fields of a row as texts.
pub open spec fn row_view(row: Seq<String>) -> Seq<Seq<char>> {
    Seq::new(row.len(), |j: int| row[j]@)
}

/// The rows of a table as lists of texts.
pub open spec fn rows_view(rows: Seq<Vec<String>>) -> Seq<Seq<Seq<char>>> {
    Seq::new(rows.len(), |i: int| row_view(rows[i]@))
}

/// Calls `csv::ReaderBuilder::from_reader` on the bytes, with `has_headers`
/// switched off so that the header row comes out too, and walks
/// `Reader::records`. Trusted: the rows are what [`csv_rows`] names, and an
/// error of the crate comes back as its message, exactly when [`csv_rows`]
/// is `None`. Nothing is claimed of the message.
#[verifier::external_body]
pub(crate) fn parse_rows(data: &[u8]) -> (r: Result<Vec<Vec<String>>, String>)
    ensures
        match r {
            Ok(rows) => csv_rows(data@) == Some(rows_view(rows@)),
            Err(_) => csv_rows(data@) is None,
        },
{
    let mut reader = csv::ReaderBuilder::new().has_headers(false).from_reader(data);
    let mut rows: Vec<Vec<String>> = Vec::new();
    for record in reader.records() {
        match record {
            Ok(fields) => rows.push(fields.iter().map(|f| f.to_string()).collect()),
            Err(e) => return Err(e.to_string()),
        }
    }
    Ok(rows)
}

/// Whether column `i` of a header is the one and only column called `name`.
pub open spec fn is_only_column(header: Seq<Seq<char>>, name: Seq<char>, i: int) -> bool {
    &&& 0 <= i < header.len()
    &&& header[i] == name
    &&& forall|j: int| 0 <= j < header.len() && #[trigger] header[j] == name ==> j == i
}

/// The index of the column called `name`, where the header has exactly one
/// such column. Names are compared letter for letter.
pub open spec fn column_of(header: Seq<Seq<char>>, name: Seq<char>) -> Option<int> {
    if exists|i: int| is_only_column(header, name, i) {
        Some(choose|i: int| is_only_column(header, name, i))
    } else {
        None
    }
}

/// Finds the column called `name` in a header row. A header without such a
/// column, or with several, has none.
pub fn find_column(header: &Vec<String>, name: &str) -> (r: Option<usize>)
    ensures
        match r {
            Some(i) => column_of(row_view(header@), name@) == Some(i as int),
            None => column_of(row_view(header@), name@) is None,
        },
{
    let wanted = String::from_str(name);
    let ghost cells = row_view(header@);
    let mut found: Option<usize> = None;
    let mut twice = false;
    let ghost mut a: int = 0;
    let ghost mut b: int = 0;
    let mut i: usize = 0;
    while i < header.len()
        invariant
            0 <= i <= header.len(),
            cells == row_view(header@),
            wanted@ == name@,
            twice ==> 0 <= a < b < i && cells[a] == name@ && cells[b] == name@,
            !twice ==> match found {
                Some(f) => f < i && cells[f as int] == name@ && forall|j: int|
                    0 <= j < i && #[trigger] cells[j] == name@ ==> j == f,
                None => forall|j: int| 0 <= j < i ==> #[trigger] cells[j] != name@,
            },
        decreases header.len() - i,
    {
        assert(cells[i as int] == header@[i as int]@);
        if header[i] == wanted {
            match found {
                Some(f) => {
                    if !twice {
                        proof {
                            a = f as int;
                            b = i as int;
                        }
                    }
                    twice = true;
                },
                None => {
                    found = Some(i);
                },
            }
        }
        i += 1;
    }
    if twice {
        assert forall|k: int| !is_only_column(cells, name@, k) by {
            if is_only_column(cells, name@, k) {
                assert(cells[a] == name@);
                assert(cells[b] == name@);
            }
        }
        None
    } else {
        match found {
            Some(f) => {
                assert(is_only_column(cells, name@, f as int));
                Some(f)
            },
            None => {
                assert forall|k: int| !is_only_column(cells, name@, k) by {}
                None
            },
        }
    }
}

/// The three fields of a row at the columns `a`, `b` and `c`, where the row
/// reaches that far.
pub open spec fn picked_row(row: Seq<Seq<char>>, a: int, b: int, c: int) -> Option<
    (Seq<char>, Seq<char>, Seq<char>),
> {
    if 0 <= a < row.len() && 0 <= b < row.len() && 0 <= c < row.len() {
        Some((row[a], row[b], row[c]))
    } else {
        None
    }
}

/// What a table holds under three column names: for each row after the
/// header, its fields in the columns so called, in the order of the rows. A
/// table without any row holds nothing. `None` where the header lacks one of
/// the names or has it twice, and where a row does not reach one of the
/// columns.
pub open spec fn picked(
    rows: Seq<Seq<Seq<char>>>,
    first: Seq<char>,
    second: Seq<char>,
    third: Seq<char>,
) -> Option<Seq<(Seq<char>, Seq<char>, Seq<char>)>> {
    if rows.len() == 0 {
        Some(Seq::empty())
    } else {
        match (column_of(rows[0], first), column_of(rows[0], second), column_of(rows[0], third)) {
            (Some(a), Some(b), Some(c)) => {
                if forall|k: int| 1 <= k < rows.len() ==> (#[trigger] picked_row(rows[k], a, b, c))
                    is Some {
                    Some(
                        Seq::new(
                            (rows.len() - 1) as nat,
                            |k: int| picked_row(rows[k + 1], a, b, c)->Some_0,
                        ),
                    )
                } else {
                    None
                }
            },
            _ => None,
        }
    }
}

/// Three texts, by their views.
pub open spec fn triple_view(t: (String, String, String)) -> (Seq<char>, Seq<char>, Seq<char>) {
    (t.0@, t.1@, t.2@)
}

/// A list of triples of texts, by their views.
pub open spec fn triples_view(v: Seq<(String, String, String)>) -> Seq<
    (Seq<char>, Seq<char>, Seq<char>),
> {
    Seq::new(v.len(), |i: int| triple_view(v[i]))
}

/// Picks from a table, whose first row is the header, the fields under three
/// column names, row by row. Fails with a parse error exactly where
/// [`picked`] is `None`.
pub fn pick_columns(rows: &Vec<Vec<String>>, first: &str, second: &str, third: &str) -> (r: Result<
    Vec<(String, String, String)>,
    PlinkError,
>)
    ensures
        match r {
            Ok(v) => picked(rows_view(rows@), first@, second@, third@) == Some(triples_view(v@)),
            Err(e) => e is Parse && picked(rows_view(rows@), first@, second@, third@) is None,
        },
{
    let ghost table = rows_view(rows@);
    let mut out: Vec<(String, String, String)> = Vec::new();
    if rows.len() == 0 {
        assert(triples_view(out@) =~= Seq::empty());
        return Ok(out);
    }
    assert(table[0] == row_view(rows@[0]@));
    let a = match find_column(&rows[0], first) {
        Some(a) => a,
        None => return Err(PlinkError::Parse(crate::error::join("missing field ", first))),
    };
    let b = match find_column(&rows[0], second) {
        Some(b) => b,
        None => return Err(PlinkError::Parse(crate::error::join("missing field ", second))),
    };
    let c = match find_column(&rows[0], third) {
        Some(c) => c,
        None => return Err(PlinkError::Parse(crate::error::join("missing field ", third))),
    };
    let mut k: usize = 1;
    while k < rows.len()
        invariant
            1 <= k <= rows.len(),
            table == rows_view(rows@),
            column_of(table[0], first@) == Some(a as int),
            column_of(table[0], second@) == Some(b as int),
            column_of(table[0], third@) == Some(c as int),
            out@.len() == k - 1,
            forall|m: int|
                1 <= m < k ==> (#[trigger] picked_row(table[m], a as int, b as int, c as int))
                    is Some,
            forall|m: int|
                0 <= m < k - 1 ==> triple_view(#[trigger] out@[m]) == picked_row(
                    table[m + 1],
                    a as int,
                    b as int,
                    c as int,
                )->Some_0,
        decreases rows.len() - k,
    {
        let row = &rows[k];
        assert(table[k as int] == row_view(row@));
        if a < row.len() && b < row.len() && c < row.len() {
            out.push((row[a].clone(), row[b].clone(), row[c].clone()));
        } else {
            assert(picked_row(table[k as int], a as int, b as int, c as int) is None);
            return Err(PlinkError::Parse(String::from_str("a row has too few fields")));
        }
        k += 1;
    }
    assert(triples_view(out@) =~= Seq::new(
        (table.len() - 1) as nat,
        |m: int| picked_row(table[m + 1], a as int, b as int, c as int)->Some_0,
    ));
    Ok(out)
}

/// Reads a delimited file's bytes and picks the fields under three column
/// names. Fails with a parse error where the bytes are no table, and where
/// the table does not hold the columns.
pub fn read_columns(data: &[u8], first: &str, second: &str, third: &str) -> (r: Result<
    Vec<(String, String, String)>,
    PlinkError,
>)
    ensures
        match r {
            Ok(v) => csv_rows(data@) is Some && picked(
                csv_rows(data@)->Some_0,
                first@,
                second@,
                third@,
            ) == Some(triples_view(v@)),
            Err(e) => e is Parse && (csv_rows(data@) is None || picked(
                csv_rows(data@)->Some_0,
                first@,
                second@,
                third@,
            ) is None),
        },
{
    match parse_rows(data) {
        Ok(rows) => pick_columns(&rows, first, second, third),
        Err(reason) => Err(PlinkError::Parse(reason)),
    }
}

} // verus!
