//! The compilation environment: everything the typst compiler asks of its
//! host while it compiles one detached document.

use vstd::prelude::*;
use vstd::utf8::encode_utf8;
use chrono::Datelike;
use comemo::Prehashed;
use typst::diag::FileError;
use typst::foundations::Bytes;
use typst::syntax::{FileId, Source};
use typst::text::{Font, FontBook, FontInfo};
use typst::Library;

verus! {

#[verifier::external_type_specification]
#[verifier::external_body]
#[verifier::reject_recursive_types(T)]
pub struct ExPrehashed<T: ?Sized>(Prehashed<T>);

#[verifier::external_type_specification]
#[verifier::external_body]
pub struct ExLibrary(Library);

#[verifier::external_type_specification]
#[verifier::external_body]
pub struct ExFontBook(FontBook);

#[verifier::external_type_specification]
#[verifier::external_body]
pub struct ExFontInfo(FontInfo);

#[verifier::external_type_specification]
#[verifier::external_body]
pub struct ExFont(Font);

#[verifier::external_type_specification]
#[verifier::external_body]
pub struct ExSource(Source);

#[verifier::external_type_specification]
#[verifier::external_body]
pub struct ExFileId(FileId);

#[verifier::external_type_specification]
#[verifier::external_body]
pub struct ExBytes(Bytes);

#[verifier::external_type_specification]
#[verifier::external_body]
pub struct ExFileError(FileError);

/// The collection indices of the faces of a font file that decode, in
/// increasing order.
pub uninterp spec fn face_indices(data: Seq<u8>) -> Seq<u32>;

/// What a font face was loaded from: the file's contents and the face's
/// index in it.
pub uninterp spec fn font_origin(f: Font) -> (Seq<u8>, u32);

/// The metadata a font face carries.
pub uninterp spec fn font_info(f: Font) -> FontInfo;

/// The entries of a font book, in index order.
pub uninterp spec fn book_entries(b: Prehashed<FontBook>) -> Seq<FontInfo>;

/// The text a source file holds.
pub uninterp spec fn source_text(s: Source) -> Seq<char>;

/// The identity of a source file.
pub uninterp spec fn source_file(s: Source) -> FileId;

/// The "not found" error for the file with identity `id`, naming its path.
pub uninterp spec fn missing_file(id: FileId) -> FileError;

/// What a byte buffer holds.
pub uninterp spec fn bytes_content(b: Bytes) -> Seq<u8>;

/// The proleptic Gregorian date (year, month, day) of a day number, counted
/// with January 1 of year 1 as day 1, where chrono can represent it.
pub uninterp spec fn civil_date(days: int) -> Option<(int, int, int)>;

/// Whether `y` is a leap year of the Gregorian calendar.
pub open spec fn leap_year(y: int) -> bool {
    y % 4 == 0 && (y % 100 != 0 || y % 400 == 0)
}

/// The number of days of month `m` of year `y`.
pub open spec fn days_in_month(y: int, m: int) -> int {
    if m == 2 {
        if leap_year(y) {
            29
        } else {
            28
        }
    } else if m == 4 || m == 6 || m == 9 || m == 11 {
        30
    } else {
        31
    }
}

/// Relies on `FontBook::from_fonts` and `Prehashed::new`: a book whose entry
/// `i` is the metadata of `fonts[i]`.
#[verifier::external_body]
fn font_book(fonts: &Vec<Font>) -> (r: Prehashed<FontBook>)
    ensures
        book_entries(r) == fonts@.map_values(|f: Font| font_info(f)),
{
    Prehashed::new(FontBook::from_fonts(fonts))
}

/// Relies on `Font::iter`: every face of a font file or font collection that
/// decodes, in the order of their indices in the file; a file that does not
/// decode gives none.
#[verifier::external_body]
fn load_faces(data: &Vec<u8>) -> (r: Vec<Font>)
    ensures
        r@.len() == face_indices(data@).len(),
        forall|i: int| 0 <= i < r@.len() ==> font_origin(#[trigger] r@[i]) == (data@, face_indices(data@)[i]),
{
    Font::iter(Bytes::from(data.clone())).collect()
}

/// Relies on `Source::detached`: a source with the text `text` and the
/// identity of a file that is not on disk.
#[verifier::external_body]
fn detached_source(text: &str) -> (r: Source)
    ensures
        source_text(r) == text@,
{
    Source::detached(text)
}

/// Relies on `Source::id`: the identity of a source file.
#[verifier::external_body]
fn source_id(s: &Source) -> (r: FileId)
    ensures
        r == source_file(*s),
{
    s.id()
}

/// Relies on `Bytes::from`: a buffer holding a copy of `b`.
#[verifier::external_body]
fn bytes_of(b: &[u8]) -> (r: Bytes)
    ensures
        bytes_content(r) == b@,
{
    Bytes::from(b)
}

/// Relies on the `PartialEq` of `FileId`, a newtype over an interned index.
#[verifier::external_body]
fn same_file(a: FileId, b: FileId) -> (r: bool)
    ensures
        r == (a == b),
{
    a == b
}

/// Relies on `FileError::NotFound` and `VirtualPath::as_rootless_path`: the
/// "not found" error that names the path of `id`.
#[verifier::external_body]
fn not_found(id: FileId) -> (r: FileError)
    ensures
        r == missing_file(id),
{
    FileError::NotFound(id.vpath().as_rootless_path().into())
}

/// Relies on the derived `Clone` of `Source`, which shares the same text.
#[verifier::external_body]
fn copy_source(s: &Source) -> (r: Source)
    ensures
        r == *s,
{
    s.clone()
}

/// Relies on the derived `Clone` of `Font`, which shares the same face.
#[verifier::external_body]
fn copy_font(f: &Font) -> (r: Font)
    ensures
        r == *f,
{
    f.clone()
}

/// Relies on `chrono::Local::now` and `Datelike::num_days_from_ce`: the day
/// number of the local date at the time of the call, a date that chrono
/// represents.
#[verifier::external_body]
fn local_day_number() -> (r: i32)
    ensures
        civil_date(r as int) is Some,
{
    chrono::Local::now().date_naive().num_days_from_ce()
}

/// Relies on `NaiveDate::from_num_days_from_ce_opt`: the calendar date of
/// day number `days`, or `None` outside chrono's range.
#[verifier::external_body]
fn calendar_date(days: i32) -> (r: Option<(i32, u32, u32)>)
    ensures
        match r {
            Some((y, m, d)) => {
                &&& civil_date(days as int) == Some((y as int, m as int, d as int))
                &&& 1 <= m <= 12
                &&& 1 <= d <= days_in_month(y as int, m as int)
            },
            None => civil_date(days as int) is None,
        },
{
    chrono::NaiveDate::from_num_days_from_ce_opt(days).map(|d| (d.year(), d.month(), d.day()))
}

/// The sum of the face counts of `files`.
pub open spec fn total_faces(files: Seq<Seq<u8>>) -> nat
    decreases files.len(),
{
    if files.len() == 0 {
        0
    } else {
        total_faces(files.drop_last()) + face_indices(files.last()).len()
    }
}

/// The faces of one file, as (contents, index) pairs.
pub open spec fn file_faces(data: Seq<u8>) -> Seq<(Seq<u8>, u32)> {
    face_indices(data).map_values(|i: u32| (data, i))
}

/// The faces of `files`, as (contents, index) pairs: file after file, and
/// within a file in the order of the indices.
pub open spec fn all_faces(files: Seq<Seq<u8>>) -> Seq<(Seq<u8>, u32)>
    decreases files.len(),
{
    if files.len() == 0 {
        Seq::empty()
    } else {
        all_faces(files.drop_last()) + file_faces(files.last())
    }
}

/// Where each of `fonts` was loaded from.
pub open spec fn origins(fonts: Seq<Font>) -> Seq<(Seq<u8>, u32)> {
    fonts.map_values(|f: Font| font_origin(f))
}

/// The contents of each file.
pub open spec fn contents(files: Seq<Vec<u8>>) -> Seq<Seq<u8>> {
    files.map_values(|f: Vec<u8>| f@)
}

/// Day number `today` moved by `offset` days (none when absent), where the
/// result still fits a day number.
pub open spec fn shifted(today: i32, offset: Option<i64>) -> Option<i32> {
    let t = today as int + match offset {
        Some(o) => o as int,
        None => 0,
    };
    if i32::MIN <= t <= i32::MAX {
        Some(t as i32)
    } else {
        None
    }
}

/// The calendar date (year, month, day) of a day number, if any.
pub open spec fn date_parts(day: Option<i32>) -> Option<(i32, u8, u8)> {
    match day {
        None => None,
        Some(n) => match civil_date(n as int) {
            None => None,
            Some((y, m, d)) => Some((y as i32, m as u8, d as u8)),
        },
    }
}

/// Whether (year, month, day) names a day of the Gregorian calendar.
pub open spec fn valid_date(date: (i32, u8, u8)) -> bool {
    1 <= date.1 <= 12 && 1 <= date.2 <= days_in_month(date.0 as int, date.1 as int)
}

/// Moves day number `today` by `offset` days.
pub fn shift_days(today: i32, offset: Option<i64>) -> (r: Option<i32>)
    ensures
        r == shifted(today, offset),
{
    let o: i64 = match offset {
        Some(o) => o,
        None => 0,
    };
    if o > (i32::MAX as i64) - (today as i64) || o < (i32::MIN as i64) - (today as i64) {
        None
    } else {
        Some((today as i64 + o) as i32)
    }
}

/// The calendar date of a day number; `None` for no day number, or outside
/// the representable range.
pub fn date_of_day(day: Option<i32>) -> (r: Option<(i32, u8, u8)>)
    ensures
        r == date_parts(day),
        r is Some ==> valid_date(r->Some_0),
{
    match day {
        None => None,
        Some(n) => match calendar_date(n) {
            None => None,
            Some((y, m, d)) => Some((y, m as u8, d as u8)),
        },
    }
}

/// Loads every face of every font file, in file order and, within a file,
/// in the order of the faces' indices; a file that does not decode adds none.
pub fn load_fonts(files: &Vec<Vec<u8>>) -> (r: Vec<Font>)
    ensures
        origins(r@) == all_faces(contents(files@)),
        r@.len() == total_faces(contents(files@)),
{
    let mut fonts: Vec<Font> = Vec::new();
    let mut i: usize = 0;
    while i < files.len()
        invariant
            i <= files.len(),
            origins(fonts@) == all_faces(contents(files@).take(i as int)),
            fonts@.len() == total_faces(contents(files@).take(i as int)),
        decreases files.len() - i,
    {
        let ghost start = fonts@;
        let faces = load_faces(&files[i]);
        let mut j: usize = 0;
        while j < faces.len()
            invariant
                j <= faces.len(),
                faces@.len() == face_indices(files@[i as int]@).len(),
                forall|k: int| 0 <= k < faces@.len() ==> font_origin(#[trigger] faces@[k]) == (files@[i as int]@, face_indices(files@[i as int]@)[k]),
                origins(fonts@) == origins(start) + file_faces(files@[i as int]@).take(j as int),
                fonts@.len() == start.len() + j,
            decreases faces.len() - j,
        {
            let ghost before = fonts@;
            fonts.push(copy_font(&faces[j]));
            proof {
                assert(origins(fonts@) =~= origins(before).push(font_origin(faces@[j as int])));
                assert(file_faces(files@[i as int]@).take(j + 1) =~= file_faces(files@[i as int]@).take(j as int).push(font_origin(faces@[j as int])));
            }
            j = j + 1;
        }
        proof {
            let c = contents(files@);
            assert(c.take(i + 1).drop_last() =~= c.take(i as int));
            assert(c.take(i + 1).last() == files@[i as int]@);
            assert(file_faces(files@[i as int]@).take(j as int) =~= file_faces(files@[i as int]@));
        }
        i = i + 1;
    }
    proof {
        assert(contents(files@).take(files.len() as int) =~= contents(files@));
    }
    fonts
}

/// One compilation's host: the standard library, the fonts found on the
/// machine with their metadata, and the one detached document to compile.
pub struct Environment {
    library: Prehashed<Library>,
    book: Prehashed<FontBook>,
    fonts: Vec<Font>,
    text: String,
    source: Source,
    main_id: FileId,
}

impl Environment {
    /// The loaded font faces, in catalog order.
    pub closed spec fn faces(&self) -> Seq<Font> {
        self.fonts@
    }

    /// The standard library handed to the compiler.
    pub closed spec fn standard(&self) -> Prehashed<Library> {
        self.library
    }

    /// The font metadata handed to the compiler.
    pub closed spec fn metadata(&self) -> Prehashed<FontBook> {
        self.book
    }

    /// The markup of the document this environment compiles.
    pub closed spec fn text(&self) -> Seq<char> {
        self.text@
    }

    /// The document this environment compiles.
    pub closed spec fn main_source(&self) -> Source {
        self.source
    }

    /// The identity of the document this environment compiles.
    pub closed spec fn main_file(&self) -> FileId {
        self.main_id
    }

    /// The environment for the markup `content`, with the faces of the font
    /// files `font_files` in order and the shared standard library `library`.
    pub fn new(content: &str, font_files: &Vec<Vec<u8>>, library: Prehashed<Library>) -> (r: Environment)
        ensures
            r.standard() == library,
            r.text() == content@,
            source_text(r.main_source()) == content@,
            r.main_file() == source_file(r.main_source()),
            origins(r.faces()) == all_faces(contents(font_files@)),
            r.faces().len() == total_faces(contents(font_files@)),
            book_entries(r.metadata()) == r.faces().map_values(|f: Font| font_info(f)),
    {
        let fonts = load_fonts(font_files);
        let book = font_book(&fonts);
        let source = detached_source(content);
        let main_id = source_id(&source);
        Environment {
            library,
            book,
            fonts,
            text: String::from_str(content),
            source,
            main_id,
        }
    }

    /// The standard library.
    pub fn library(&self) -> (r: &Prehashed<Library>)
        ensures
            *r == self.standard(),
    {
        &self.library
    }

    /// The metadata of the catalog's faces, entry `i` describing face `i`.
    pub fn book(&self) -> (r: &Prehashed<FontBook>)
        ensures
            *r == self.metadata(),
    {
        &self.book
    }

    /// The document to compile.
    pub fn main(&self) -> (r: Source)
        ensures
            r == self.main_source(),
    {
        copy_source(&self.source)
    }

    /// The identity of the document to compile.
    pub fn main_id(&self) -> (r: FileId)
        ensures
            r == self.main_file(),
    {
        self.main_id
    }

    /// The source with identity `id`: the document itself, or "not found".
    pub fn source(&self, id: FileId) -> (r: Result<Source, FileError>)
        ensures
            r is Ok <==> id == self.main_file(),
            r is Ok ==> r->Ok_0 == self.main_source(),
            r is Err ==> r->Err_0 == missing_file(id),
    {
        if same_file(id, self.main_id) {
            Ok(copy_source(&self.source))
        } else {
            Err(not_found(id))
        }
    }

    /// The file with identity `id`: the document's own text as UTF-8 bytes,
    /// or "not found" for any other file.
    pub fn file(&self, id: FileId) -> (r: Result<Bytes, FileError>)
        ensures
            r is Ok <==> id == self.main_file(),
            r is Ok ==> bytes_content(r->Ok_0) == encode_utf8(self.text()),
            r is Err ==> r->Err_0 == missing_file(id),
    {
        if same_file(id, self.main_id) {
            Ok(bytes_of(self.text.as_str().as_bytes()))
        } else {
            Err(not_found(id))
        }
    }

    /// The face at position `index` of the catalog, if there is one.
    pub fn font(&self, index: usize) -> (r: Option<Font>)
        ensures
            index < self.faces().len() ==> r == Some(self.faces()[index as int]),
            index >= self.faces().len() ==> r is None,
    {
        if index < self.fonts.len() {
            Some(copy_font(&self.fonts[index]))
        } else {
            None
        }
    }

    /// The local date now, moved by `offset` days, as (year, month, day).
    pub fn today(&self, offset: Option<i64>) -> (r: Option<(i32, u8, u8)>)
        ensures
            exists|now: i32|
                civil_date(now as int) is Some && r == date_parts(#[trigger] shifted(now, offset)),
            offset is None ==> r is Some,
            r is Some ==> valid_date(r->Some_0),
    {
        let now = local_day_number();
        let r = date_of_day(shift_days(now, offset));
        proof {
            assert(r == date_parts(shifted(now, offset)));
        }
        r
    }
}

} // verus!
