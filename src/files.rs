//! Which source files are handled, and where they go.

use vstd::prelude::*;
use crate::fingerprint::opt_view;

verus! {

/// Whether two texts are equal.
pub fn text_eq(a: &str, b: &str) -> (r: bool)
    ensures
        r == (a@ == b@),
{
    let n = a.unicode_len();
    if n != b.unicode_len() {
        return false;
    }
    let mut i: usize = 0;
    while i < n
        invariant
            n == a@.len(),
            n == b@.len(),
            i <= n,
            a@.take(i as int) == b@.take(i as int),
        decreases n - i,
    {
        if a.get_char(i) != b.get_char(i) {
            return false;
        }
        assert(a@.take(i + 1) =~= a@.take(i as int).push(a@[i as int]));
        assert(b@.take(i + 1) =~= b@.take(i as int).push(b@[i as int]));
        i = i + 1;
    }
    assert(a@ =~= a@.take(n as int));
    assert(b@ =~= b@.take(n as int));
    true
}

/// The lower-case form of a text, character by character as Unicode defines
/// it.
pub uninterp spec fn lower_of(s: Seq<char>) -> Seq<char>;

/// Relies on str::to_lowercase: the lower-case form depends on the text alone.
#[verifier::external_body]
fn lowercase(s: &str) -> (r: String)
    ensures
        r@ == lower_of(s@),
{
    s.to_lowercase()
}

/// The extensions, in lower case, of camera raw images.
pub open spec fn raw_extensions() -> Seq<Seq<char>> {
    seq![
        seq!['d', 'n', 'g'],
        seq!['n', 'e', 'f'],
        seq!['c', 'r', '2'],
        seq!['a', 'r', 'w'],
        seq!['o', 'r', 'f'],
        seq!['r', 'w', '2'],
        seq!['p', 'e', 'f'],
        seq!['s', 'r', 'w'],
        seq!['r', 'a', 'f'],
        seq!['3', 'f', 'r'],
        seq!['f', 'f', 'f'],
        seq!['x', '3', 'f'],
    ]
}

/// The extensions, in lower case, of JPEG images.
pub open spec fn jpeg_extensions() -> Seq<Seq<char>> {
    seq![seq!['j', 'p', 'g'], seq!['j', 'p', 'e', 'g']]
}

/// Whether `s` is one of `list`.
fn one_of(s: &str, list: &Vec<&'static str>) -> (r: bool)
    ensures
        r == exists|k: int| 0 <= k < list@.len() && (#[trigger] list@[k])@ == s@,
{
    let mut k: usize = 0;
    while k < list.len()
        invariant
            k <= list@.len(),
            forall|j: int| 0 <= j < k ==> (#[trigger] list@[j])@ != s@,
        decreases list.len() - k,
    {
        if text_eq(list[k], s) {
            return true;
        }
        k = k + 1;
    }
    false
}

/// Whether a file extension, in any case, is that of a camera raw image.
pub fn is_raw_file(ext: &str) -> (r: bool)
    ensures
        r == raw_extensions().contains(lower_of(ext@)),
{
    let lower = lowercase(ext);
    let list: Vec<&'static str> = vec![
        "dng",
        "nef",
        "cr2",
        "arw",
        "orf",
        "rw2",
        "pef",
        "srw",
        "raf",
        "3fr",
        "fff",
        "x3f",
    ];
    proof {
        reveal_strlit("dng");
        reveal_strlit("nef");
        reveal_strlit("cr2");
        reveal_strlit("arw");
        reveal_strlit("orf");
        reveal_strlit("rw2");
        reveal_strlit("pef");
        reveal_strlit("srw");
        reveal_strlit("raf");
        reveal_strlit("3fr");
        reveal_strlit("fff");
        reveal_strlit("x3f");
        assert("dng"@ =~= seq!['d', 'n', 'g']);
        assert("nef"@ =~= seq!['n', 'e', 'f']);
        assert("cr2"@ =~= seq!['c', 'r', '2']);
        assert("arw"@ =~= seq!['a', 'r', 'w']);
        assert("orf"@ =~= seq!['o', 'r', 'f']);
        assert("rw2"@ =~= seq!['r', 'w', '2']);
        assert("pef"@ =~= seq!['p', 'e', 'f']);
        assert("srw"@ =~= seq!['s', 'r', 'w']);
        assert("raf"@ =~= seq!['r', 'a', 'f']);
        assert("3fr"@ =~= seq!['3', 'f', 'r']);
        assert("fff"@ =~= seq!['f', 'f', 'f']);
        assert("x3f"@ =~= seq!['x', '3', 'f']);
    }
    let ghost views_of = list@.map_values(|t: &'static str| t@);
    assert(views_of =~= raw_extensions());
    let r = one_of(lower.as_str(), &list);
    assert(r == raw_extensions().contains(lower@)) by {
        if r {
            let k = choose|k: int| 0 <= k < list@.len() && (#[trigger] list@[k])@ == lower@;
            assert(views_of[k] == lower@);
        } else {
            assert forall|k: int| 0 <= k < raw_extensions().len() implies raw_extensions()[k]
                != lower@ by {
                assert(views_of[k] == list@[k]@);
            }
        }
    }
    r
}

/// The names of the bookkeeping files and directories that some systems
/// leave on removable media.
pub open spec fn shadow_names() -> Seq<Seq<char>> {
    seq![
        ".DS_Store"@,
        ".AppleDouble"@,
        ".Trashes"@,
        ".Spotlight-V100"@,
        ".fseventsd"@,
        ".TemporaryItems"@,
    ]
}

/// Whether a directory entry is system bookkeeping rather than user data: an
/// AppleDouble companion (`._` prefix) or one of the known names.
pub open spec fn is_shadow_name(name: Seq<char>) -> bool {
    (name.len() >= 2 && name[0] == '.' && name[1] == '_') || shadow_names().contains(name)
}

/// Whether the entry named `name` is system bookkeeping and is skipped, with
/// everything below it.
pub fn is_shadow(name: &str) -> (r: bool)
    ensures
        r == is_shadow_name(name@),
{
    if name.unicode_len() >= 2 && name.get_char(0) == '.' && name.get_char(1) == '_' {
        return true;
    }
    let list: Vec<&'static str> = vec![
        ".DS_Store",
        ".AppleDouble",
        ".Trashes",
        ".Spotlight-V100",
        ".fseventsd",
        ".TemporaryItems",
    ];
    let ghost views_of = list@.map_values(|t: &'static str| t@);
    assert(views_of =~= shadow_names());
    let r = one_of(name, &list);
    assert(r == shadow_names().contains(name@)) by {
        if r {
            let k = choose|k: int| 0 <= k < list@.len() && (#[trigger] list@[k])@ == name@;
            assert(views_of[k] == name@);
        } else {
            assert forall|k: int| 0 <= k < shadow_names().len() implies shadow_names()[k]
                != name@ by {
                assert(views_of[k] == list@[k]@);
            }
        }
    }
    r
}

/// `part` appended to the path `base` as a further component.
pub uninterp spec fn path_join(base: Seq<char>, part: Seq<char>) -> Seq<char>;

/// Relies on std::path::Path::join: the joined path depends on the two texts
/// alone, and joining two texts gives text.
#[verifier::external_body]
fn join_path(base: &str, part: &str) -> (r: String)
    ensures
        r@ == path_join(base@, part@),
{
    std::path::Path::new(base).join(part).to_string_lossy().into_owned()
}

/// The kind of an image file, with the directory it is copied to.
#[derive(Clone, Debug)]
pub enum FileType {
    Jpeg(String),
    Raw(String),
}

/// The directory `root/year/date`.
pub open spec fn dated_dir(root: Seq<char>, year: Seq<char>, date: Seq<char>) -> Seq<char> {
    path_join(path_join(root, year), date)
}

/// Classifies a file by its extension, in any case, and names the directory
/// it goes to: a JPEG goes under `output`, a raw image under `raw_output` when
/// that is set and under `output` otherwise, each in a subdirectory for the
/// year and one for the day the picture was taken. Other files are not
/// handled.
pub fn build_file_type(
    ext: &str,
    year: &str,
    date: &str,
    output: &str,
    raw_output: &Option<String>,
) -> (r: Option<FileType>)
    ensures
        jpeg_extensions().contains(lower_of(ext@)) ==> (r matches Some(FileType::Jpeg(p)) && p@
            == dated_dir(output@, year@, date@)),
        !jpeg_extensions().contains(lower_of(ext@)) && raw_extensions().contains(
            lower_of(lower_of(ext@)),
        ) ==> (r matches Some(FileType::Raw(p)) && p@ == dated_dir(
            match opt_view(*raw_output) {
                Some(d) => d,
                None => output@,
            },
            year@,
            date@,
        )),
        !jpeg_extensions().contains(lower_of(ext@)) && !raw_extensions().contains(
            lower_of(lower_of(ext@)),
        ) ==> r is None,
{
    let lower = lowercase(ext);
    let list: Vec<&'static str> = vec!["jpg", "jpeg"];
    proof {
        reveal_strlit("jpg");
        reveal_strlit("jpeg");
        assert("jpg"@ =~= seq!['j', 'p', 'g']);
        assert("jpeg"@ =~= seq!['j', 'p', 'e', 'g']);
    }
    let ghost views_of = list@.map_values(|t: &'static str| t@);
    assert(views_of =~= jpeg_extensions());
    let is_jpeg = one_of(lower.as_str(), &list);
    assert(is_jpeg == jpeg_extensions().contains(lower@)) by {
        if is_jpeg {
            let k = choose|k: int| 0 <= k < list@.len() && (#[trigger] list@[k])@ == lower@;
            assert(views_of[k] == lower@);
        } else {
            assert forall|k: int| 0 <= k < jpeg_extensions().len() implies jpeg_extensions()[k]
                != lower@ by {
                assert(views_of[k] == list@[k]@);
            }
        }
    }
    if is_jpeg {
        let dir = join_path(output, year);
        return Some(FileType::Jpeg(join_path(dir.as_str(), date)));
    }
    if is_raw_file(lower.as_str()) {
        let root = match raw_output {
            Some(d) => d.as_str(),
            None => output,
        };
        let dir = join_path(root, year);
        return Some(FileType::Raw(join_path(dir.as_str(), date)));
    }
    None
}

/// A calendar day.
#[derive(Clone, Copy, Debug, PartialEq, Eq, Structural)]
pub struct CalendarDate {
    pub year: i32,
    pub month: u32,
    pub day: u32,
}

/// Whether day `a` comes before day `b`.
pub open spec fn date_before(a: CalendarDate, b: CalendarDate) -> bool {
    a.year < b.year || (a.year == b.year && (a.month < b.month || (a.month == b.month && a.day
        < b.day)))
}

fn is_before(a: CalendarDate, b: CalendarDate) -> (r: bool)
    ensures
        r == date_before(a, b),
{
    a.year < b.year || (a.year == b.year && (a.month < b.month || (a.month == b.month && a.day
        < b.day)))
}

/// Whether a picture taken on `date` is handled: not before `from` (when
/// set) and before `to` (when set).
pub fn is_date_in_range(
    date: CalendarDate,
    from: Option<CalendarDate>,
    to: Option<CalendarDate>,
) -> (r: bool)
    ensures
        r == ((from matches Some(f) ==> !date_before(date, f)) && (to matches Some(t)
            ==> date_before(date, t))),
{
    if let Some(f) = from {
        if is_before(date, f) {
            return false;
        }
    }
    if let Some(t) = to {
        if !is_before(date, t) {
            return false;
        }
    }
    true
}

/// The calendar day, as year, month and day, that a text names in the form
/// `YYYY-MM-DD`; `None` when it names none.
pub uninterp spec fn ymd_of_date_text(s: Seq<char>) -> Option<(i32, u32, u32)>;

/// Relies on chrono::NaiveDate::parse_from_str with the format `%Y-%m-%d`:
/// the day depends on the text alone.
#[verifier::external_body]
fn parse_ymd(s: &str) -> (r: Option<(i32, u32, u32)>)
    ensures
        r == ymd_of_date_text(s@),
{
    chrono::NaiveDate::parse_from_str(s, "%Y-%m-%d").ok().map(
        |d| (chrono::Datelike::year(&d), chrono::Datelike::month(&d), chrono::Datelike::day(&d)),
    )
}

/// The calendar day of the date and time that a text names in the form
/// `YYYY-MM-DD HH:MM:SS`; `None` when it names none.
pub uninterp spec fn ymd_of_datetime_text(s: Seq<char>) -> Option<(i32, u32, u32)>;

/// Relies on chrono::NaiveDateTime::parse_from_str with the format
/// `%Y-%m-%d %H:%M:%S`, and on the day of the result: both depend on the
/// text alone.
#[verifier::external_body]
fn parse_datetime_ymd(s: &str) -> (r: Option<(i32, u32, u32)>)
    ensures
        r == ymd_of_datetime_text(s@),
{
    chrono::NaiveDateTime::parse_from_str(s, "%Y-%m-%d %H:%M:%S").ok().map(
        |d| (chrono::Datelike::year(&d), chrono::Datelike::month(&d), chrono::Datelike::day(&d)),
    )
}

/// The day, if any, that a (year, month, day) triple gives.
pub open spec fn date_of(t: Option<(i32, u32, u32)>) -> Option<CalendarDate> {
    match t {
        Some((year, month, day)) => Some(CalendarDate { year, month, day }),
        None => None,
    }
}

/// Parses a day written `YYYY-MM-DD`, as the range options are given.
pub fn parse_date(s: &str) -> (r: Option<CalendarDate>)
    ensures
        r == date_of(ymd_of_date_text(s@)),
{
    match parse_ymd(s) {
        Some((year, month, day)) => Some(CalendarDate { year, month, day }),
        None => None,
    }
}

/// Parses the day a picture was taken from its recorded date and time,
/// written `YYYY-MM-DD HH:MM:SS`.
pub fn parse_capture_date(s: &str) -> (r: Option<CalendarDate>)
    ensures
        r == date_of(ymd_of_datetime_text(s@)),
{
    match parse_datetime_ymd(s) {
        Some((year, month, day)) => Some(CalendarDate { year, month, day }),
        None => None,
    }
}

/// The names of the year and day directories of a date: the year as `%Y`,
/// and the day as `%Y%m%d`; `None` for a triple that is no calendar day.
pub uninterp spec fn date_dir_names(year: i32, month: u32, day: u32) -> Option<
    (Seq<char>, Seq<char>),
>;

/// Relies on chrono::NaiveDate::from_ymd_opt and its `format` with `%Y` and
/// `%Y%m%d`: the two names depend on the three numbers alone.
#[verifier::external_body]
fn format_date_dirs(year: i32, month: u32, day: u32) -> (r: Option<(String, String)>)
    ensures
        match r {
            Some((y, d)) => date_dir_names(year, month, day) == Some((y@, d@)),
            None => date_dir_names(year, month, day) is None,
        },
{
    chrono::NaiveDate::from_ymd_opt(year, month, day).map(
        |d| (d.format("%Y").to_string(), d.format("%Y%m%d").to_string()),
    )
}

/// What becomes of a file that the cache reported as changed.
pub enum Plan {
    /// It carries no capture date: it is skipped.
    NoCaptureDate,
    /// Its capture date cannot be read.
    BadCaptureDate,
    /// It was taken outside the requested range: it is skipped.
    OutOfRange,
    /// Its kind is not handled: it is skipped.
    Unsupported,
    /// It is copied into the directory of its file type; once the copy
    /// succeeded, the cache update is committed.
    Copy(FileType),
}

/// Decides what becomes of a changed file, from its extension and recorded
/// capture date and time: without a readable capture date, or taken outside
/// `from`..`to`, or of a kind not handled, it is left alone; otherwise it is
/// copied into `root/year/day` for the root of its kind.
pub fn plan_file(
    ext: &str,
    capture: &Option<String>,
    from: Option<CalendarDate>,
    to: Option<CalendarDate>,
    output: &str,
    raw_output: &Option<String>,
) -> (r: Plan)
    ensures
        capture is None <==> r is NoCaptureDate,
        capture matches Some(c) ==> {
            &&& date_of(ymd_of_datetime_text(c@)) is None <==> r is BadCaptureDate
            &&& date_of(ymd_of_datetime_text(c@)) matches Some(d) ==> {
                &&& !((from matches Some(f) ==> !date_before(d, f)) && (to matches Some(t)
                    ==> date_before(d, t))) <==> r is OutOfRange
                &&& !(r is OutOfRange) ==> (r is Copy <==> (date_dir_names(d.year, d.month, d.day)
                    is Some && (jpeg_extensions().contains(lower_of(ext@)) || raw_extensions().contains(
                    lower_of(lower_of(ext@))))))
                &&& r matches Plan::Copy(ft) ==> (date_dir_names(d.year, d.month, d.day) matches Some(
                    (y, dd),
                ) && (ft matches FileType::Jpeg(p) ==> jpeg_extensions().contains(lower_of(ext@))
                    && p@ == dated_dir(output@, y, dd)) && (ft matches FileType::Raw(p)
                    ==> raw_extensions().contains(lower_of(lower_of(ext@))) && p@ == dated_dir(
                    match opt_view(*raw_output) {
                        Some(x) => x,
                        None => output@,
                    },
                    y,
                    dd,
                )))
            }
        },
{
    let text = match capture {
        Some(t) => t,
        None => {
            return Plan::NoCaptureDate;
        },
    };
    let date = match parse_capture_date(text.as_str()) {
        Some(d) => d,
        None => {
            return Plan::BadCaptureDate;
        },
    };
    if !is_date_in_range(date, from, to) {
        return Plan::OutOfRange;
    }
    let (year, day) = match format_date_dirs(date.year, date.month, date.day) {
        Some(names) => names,
        None => {
            return Plan::Unsupported;
        },
    };
    match build_file_type(ext, year.as_str(), day.as_str(), output, raw_output) {
        Some(ft) => Plan::Copy(ft),
        None => Plan::Unsupported,
    }
}

} // verus!
