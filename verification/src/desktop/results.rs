//! What the results screen shows: elapsed time, the state of the analysis,
//! a description of each file and the pages of the result list.
use crate::analysis::engine::AnalysisState;
use crate::text::{
    append_str, decimal, file_name_of, owned, parent_of, path_extension, path_extension_of, path_file_name,
    path_parent, push_char, str_equal, str_to_lowercase, u64_to_string, unicode_lowercase,
};
use vstd::prelude::*;

verus! {

/// An elapsed time in whole seconds as the results screen shows it: hours,
/// minutes and seconds, leaving out leading zero units.
pub open spec fn duration_text(total_seconds: nat) -> Seq<char> {
    let hours = total_seconds / 3600;
    let minutes = (total_seconds % 3600) / 60;
    let seconds = total_seconds % 60;
    if hours > 0 {
        decimal(hours) + "h "@ + decimal(minutes) + "m "@ + decimal(seconds) + "s"@
    } else if minutes > 0 {
        decimal(minutes) + "m "@ + decimal(seconds) + "s"@
    } else {
        decimal(seconds) + "s"@
    }
}

/// An elapsed time, in whole seconds, as `1h 2m 3s`, `2m 3s` or `3s`.
pub fn format_duration(total_seconds: u64) -> (r: String)
    ensures
        r@ == duration_text(total_seconds as nat),
{
    let hours = total_seconds / 3600;
    let minutes = (total_seconds % 3600) / 60;
    let seconds = total_seconds % 60;
    if hours > 0 {
        let s = u64_to_string(hours);
        let s = append_str(s, "h ");
        let m = u64_to_string(minutes);
        let s = append_str(s, m.as_str());
        let s = append_str(s, "m ");
        let sec = u64_to_string(seconds);
        let s = append_str(s, sec.as_str());
        append_str(s, "s")
    } else if minutes > 0 {
        let s = u64_to_string(minutes);
        let s = append_str(s, "m ");
        let sec = u64_to_string(seconds);
        let s = append_str(s, sec.as_str());
        append_str(s, "s")
    } else {
        let s = u64_to_string(seconds);
        append_str(s, "s")
    }
}

/// The text shown for each state of the analysis.
pub open spec fn state_label(s: AnalysisState) -> Seq<char> {
    match s {
        AnalysisState::Idle => "Inactivo"@,
        AnalysisState::Walking => "Escaneando archivos..."@,
        AnalysisState::Analyzing => "Analizando archivos..."@,
        AnalysisState::Done => "Análisis completado"@,
    }
}

/// The text shown for a state of the analysis.
pub fn state_text(state: AnalysisState) -> (r: String)
    ensures
        r@ == state_label(state),
{
    match state {
        AnalysisState::Idle => owned("Inactivo"),
        AnalysisState::Walking => owned("Escaneando archivos..."),
        AnalysisState::Analyzing => owned("Analizando archivos..."),
        AnalysisState::Done => owned("Análisis completado"),
    }
}

/// The files that were met but whose type could not be read.
pub fn error_files(total_files: usize, analyzed_files: usize) -> (r: usize)
    ensures
        r == if total_files >= analyzed_files { total_files - analyzed_files } else { 0 },
{
    total_files.saturating_sub(analyzed_files)
}

/// The kind of file a lower-case extension is shown as.
pub open spec fn type_label_of(ext: Seq<char>) -> Seq<char> {
    if ext == "pdf"@ || ext == "doc"@ || ext == "docx"@ || ext == "txt"@ || ext == "rtf"@ || ext == "odt"@ {
        "Documento"@
    } else if ext == "jpg"@ || ext == "jpeg"@ || ext == "png"@ || ext == "gif"@ || ext == "bmp"@ || ext == "svg"@
        || ext == "webp"@ {
        "Imagen"@
    } else if ext == "mp3"@ || ext == "wav"@ || ext == "flac"@ || ext == "ogg"@ || ext == "aac"@ || ext == "m4a"@ {
        "Audio"@
    } else if ext == "mp4"@ || ext == "avi"@ || ext == "mkv"@ || ext == "mov"@ || ext == "wmv"@ || ext == "flv"@ {
        "Video"@
    } else if ext == "exe"@ || ext == "msi"@ || ext == "deb"@ || ext == "rpm"@ || ext == "dmg"@ || ext == "app"@ {
        "Aplicación"@
    } else if ext == "blend"@ || ext == "obj"@ || ext == "fbx"@ || ext == "dae"@ || ext == "3ds"@ || ext == "max"@ {
        "Modelo 3D"@
    } else {
        "Archivo"@
    }
}

fn type_label(ext: &str) -> (r: String)
    ensures
        r@ == type_label_of(ext@),
{
    if str_equal(ext, "pdf") || str_equal(ext, "doc") || str_equal(ext, "docx") || str_equal(ext, "txt")
        || str_equal(ext, "rtf") || str_equal(ext, "odt") {
        owned("Documento")
    } else if str_equal(ext, "jpg") || str_equal(ext, "jpeg") || str_equal(ext, "png") || str_equal(ext, "gif")
        || str_equal(ext, "bmp") || str_equal(ext, "svg") || str_equal(ext, "webp") {
        owned("Imagen")
    } else if str_equal(ext, "mp3") || str_equal(ext, "wav") || str_equal(ext, "flac") || str_equal(ext, "ogg")
        || str_equal(ext, "aac") || str_equal(ext, "m4a") {
        owned("Audio")
    } else if str_equal(ext, "mp4") || str_equal(ext, "avi") || str_equal(ext, "mkv") || str_equal(ext, "mov")
        || str_equal(ext, "wmv") || str_equal(ext, "flv") {
        owned("Video")
    } else if str_equal(ext, "exe") || str_equal(ext, "msi") || str_equal(ext, "deb") || str_equal(ext, "rpm")
        || str_equal(ext, "dmg") || str_equal(ext, "app") {
        owned("Aplicación")
    } else if str_equal(ext, "blend") || str_equal(ext, "obj") || str_equal(ext, "fbx") || str_equal(ext, "dae")
        || str_equal(ext, "3ds") || str_equal(ext, "max") {
        owned("Modelo 3D")
    } else {
        owned("Archivo")
    }
}

/// What the result list shows of a file, besides its size and thumbnail.
#[derive(Debug)]
pub struct FileDescription {
    pub name: String,
    pub parent: String,
    pub file_type: String,
}

/// The description of the file at `path`: its name (`archivo_sin_nombre`
/// when it has none), its folder (`Ruta desconocida` when it has none) and
/// its kind, read from its lower-cased extension.
pub open spec fn description_of(path: Seq<char>) -> (Seq<char>, Seq<char>, Seq<char>) {
    (
        match path_file_name(path) {
            Some(n) => n,
            None => "archivo_sin_nombre"@,
        },
        match path_parent(path) {
            Some(p) => p,
            None => "Ruta desconocida"@,
        },
        match path_extension(path) {
            Some(e) => type_label_of(unicode_lowercase(e)),
            None => "Archivo"@,
        },
    )
}

/// Describes the file at `path` for the result list.
pub fn describe_file(path: &str) -> (r: FileDescription)
    ensures
        (r.name@, r.parent@, r.file_type@) == description_of(path@),
{
    let name = match file_name_of(path) {
        Some(n) => n,
        None => owned("archivo_sin_nombre"),
    };
    let parent = match parent_of(path) {
        Some(p) => p,
        None => owned("Ruta desconocida"),
    };
    let file_type = match path_extension_of(path) {
        Some(e) => {
            let lower = str_to_lowercase(e.as_str());
            type_label(lower.as_str())
        },
        None => owned("Archivo"),
    };
    FileDescription { name, parent, file_type }
}

/// An `i32` read as a `usize` the way `as` reads it: a negative number
/// wraps around to the top of the range.
pub open spec fn as_index(n: int) -> int {
    if n >= 0 {
        n
    } else {
        n + usize::MAX + 1
    }
}

/// The part of the result list shown on a page: it starts at `(page - 1) *
/// per_page` and ends `per_page` items later, clipped to the list, both read
/// as indexes; nothing when it starts at or past the end.
pub open spec fn page_bounds(page: i32, per_page: i32, total: usize) -> Option<(usize, usize)> {
    let start = as_index((page - 1) * per_page);
    let step = as_index(per_page as int);
    if start < total {
        let end = if start + step <= total { start + step } else { total as int };
        Some((start as usize, end as usize))
    } else {
        None
    }
}

/// `n` as an index, as `as` reads it.
fn index_of(n: i32) -> (r: usize)
    ensures
        r == as_index(n as int),
{
    if n >= 0 {
        n as usize
    } else {
        let below: usize = (-(n + 1)) as usize;
        usize::MAX - below
    }
}

/// Where the items of a page start and end in the result list. The page's
/// start and its end before clipping must be numbers the machine holds.
pub fn page_range(page: i32, per_page: i32, total: usize) -> (r: Option<(usize, usize)>)
    requires
        i32::MIN <= (page - 1) * per_page <= i32::MAX,
        page >= i32::MIN + 1,
        as_index((page - 1) * per_page) + as_index(per_page as int) <= usize::MAX,
    ensures
        r == page_bounds(page, per_page, total),
{
    let start = index_of((page - 1) * per_page);
    let step = index_of(per_page);
    let end = if start + step <= total { start + step } else { total };
    if start < total {
        Some((start, end))
    } else {
        None
    }
}

/// The page after the current one, when the current one is not the last.
pub open spec fn next_page_of(current_page: i32, total_pages: i32) -> Option<i32> {
    if current_page < total_pages {
        Some((current_page + 1) as i32)
    } else {
        None
    }
}

/// The page before the current one, when the current one is not the first.
pub open spec fn previous_page_of(current_page: i32) -> Option<i32> {
    if current_page > 1 {
        Some((current_page - 1) as i32)
    } else {
        None
    }
}

/// The page asked for, when it is one of the pages.
pub open spec fn chosen_page(page: i32, total_pages: i32) -> Option<i32> {
    if 1 <= page && page <= total_pages {
        Some(page)
    } else {
        None
    }
}

/// The page after the current one, if there is one.
pub fn next_page(current_page: i32, total_pages: i32) -> (r: Option<i32>)
    ensures
        r == next_page_of(current_page, total_pages),
{
    if current_page < total_pages {
        Some(current_page + 1)
    } else {
        None
    }
}

/// The page before the current one, if there is one.
pub fn previous_page(current_page: i32) -> (r: Option<i32>)
    ensures
        r == previous_page_of(current_page),
{
    if current_page > 1 {
        Some(current_page - 1)
    } else {
        None
    }
}

/// The page asked for, when it exists.
pub fn go_to_page(page: i32, total_pages: i32) -> (r: Option<i32>)
    ensures
        r == chosen_page(page, total_pages),
{
    if page >= 1 && page <= total_pages {
        Some(page)
    } else {
        None
    }
}

/// What the paging of the results screen holds: the page shown, how many
/// pages and items there are, and how many items a page shows.
#[derive(Debug, Clone, Copy, PartialEq, Eq, Structural)]
pub struct Paging {
    pub current_page: i32,
    pub total_pages: i32,
    pub total_items: i32,
    pub items_per_page: i32,
}

/// A request of the results screen to move to another page.
#[derive(Debug, Clone, Copy, PartialEq, Eq, Structural)]
pub enum PageRequest {
    Next,
    Previous,
    GoTo(i32),
}

/// The page shown after a request: the page it gives, or the same page when
/// it gives none.
pub open spec fn page_after(current_page: i32, total_pages: i32, request: PageRequest) -> i32 {
    let moved = match request {
        PageRequest::Next => next_page_of(current_page, total_pages),
        PageRequest::Previous => previous_page_of(current_page),
        PageRequest::GoTo(k) => chosen_page(k, total_pages),
    };
    match moved {
        Some(p) => p,
        None => current_page,
    }
}

/// The page shown after the requests, taken in order.
pub open spec fn page_after_all(current_page: i32, total_pages: i32, requests: Seq<PageRequest>) -> i32
    decreases requests.len(),
{
    if requests.len() == 0 {
        current_page
    } else {
        page_after(page_after_all(current_page, total_pages, requests.drop_last()), total_pages, requests.last())
    }
}

impl Paging {
    /// The paging of a results screen just opened: page 1 of 1, no items,
    /// 50 items a page.
    pub fn new() -> (r: Paging)
        ensures
            r == (Paging { current_page: 1, total_pages: 1, total_items: 0, items_per_page: 50 }),
    {
        Paging { current_page: 1, total_pages: 1, total_items: 0, items_per_page: 50 }
    }

    /// Moves as a request asks, when the page it names exists.
    pub fn request(&mut self, request: PageRequest)
        ensures
            *final(self) == (Paging {
                current_page: page_after(old(self).current_page, old(self).total_pages, request),
                ..*old(self)
            }),
    {
        let moved = match request {
            PageRequest::Next => next_page(self.current_page, self.total_pages),
            PageRequest::Previous => previous_page(self.current_page),
            PageRequest::GoTo(k) => go_to_page(k, self.total_pages),
        };
        if let Some(p) = moved {
            self.current_page = p;
        }
    }
}

/// Whatever requests come, the page shown stays one of the pages: from a
/// page between 1 and the number of pages (a new screen, [`Paging::new`],
/// shows page 1 of 1), the requests leave it there.
pub proof fn pages_stay_in_range(current_page: i32, total_pages: i32, requests: Seq<PageRequest>)
    requires
        1 <= current_page <= total_pages,
    ensures
        1 <= page_after_all(current_page, total_pages, requests) <= total_pages,
    decreases requests.len(),
{
    if requests.len() > 0 {
        pages_stay_in_range(current_page, total_pages, requests.drop_last());
    }
}

/// The labels joined with `, `.
pub open spec fn joined(labels: Seq<Seq<char>>) -> Seq<char>
    decreases labels.len(),
{
    if labels.len() == 0 {
        Seq::empty()
    } else if labels.len() == 1 {
        labels[0]
    } else {
        joined(labels.drop_last()) + ", "@ + labels.last()
    }
}

/// The labels of the profiles used, joined with `, ` (`[T]::join`).
pub fn join_labels(labels: &[String]) -> (r: String)
    ensures
        r@ == joined(labels@.map_values(|l: String| l@)),
{
    let ghost ls = labels@.map_values(|l: String| l@);
    let mut r = String::new();
    let mut i: usize = 0;
    while i < labels.len()
        invariant
            0 <= i <= labels.len(),
            ls == labels@.map_values(|l: String| l@),
            r@ == joined(ls.take(i as int)),
        decreases labels.len() - i,
    {
        assert(ls.take(i + 1).drop_last() == ls.take(i as int));
        assert(ls.take(i + 1).last() == labels@[i as int]@);
        if i > 0 {
            r = append_str(r, ", ");
        }
        r = append_str(r, labels[i].as_str());
        proof {
            if i == 0 {
                assert(ls.take(1) == seq![ls[0]]);
            }
        }
        i += 1;
    }
    assert(ls.take(labels.len() as int) == ls);
    r
}

/// The filter choices of the results screen: `Todos` and then the labels
/// of the profiles used.
pub fn filter_choices(labels: &[String]) -> (r: Vec<String>)
    ensures
        r@.map_values(|l: String| l@) == seq!["Todos"@] + labels@.map_values(|l: String| l@),
{
    let mut r: Vec<String> = vec![owned("Todos")];
    let mut i: usize = 0;
    while i < labels.len()
        invariant
            0 <= i <= labels.len(),
            r@.map_values(|l: String| l@) == seq!["Todos"@] + labels@.take(i as int).map_values(|l: String| l@),
        decreases labels.len() - i,
    {
        let ghost before = r@;
        r.push(labels[i].clone());
        assert(r@.map_values(|l: String| l@) =~= before.map_values(|l: String| l@).push(labels@[i as int]@));
        assert(labels@.take(i + 1).map_values(|l: String| l@) =~= labels@.take(i as int).map_values(|l: String| l@).push(
            labels@[i as int]@,
        ));
        i += 1;
    }
    assert(labels@.take(labels.len() as int) == labels@);
    r
}

/// The hours, minutes and seconds shown add up to the elapsed time, and
/// minutes and seconds stay below sixty.
pub proof fn duration_parts_add_up(total_seconds: nat)
    ensures
        (total_seconds / 3600) * 3600 + ((total_seconds % 3600) / 60) * 60 + total_seconds % 60 == total_seconds,
        (total_seconds % 3600) / 60 < 60,
        total_seconds % 60 < 60,
{
    assert((total_seconds / 3600) * 3600 + ((total_seconds % 3600) / 60) * 60 + total_seconds % 60 == total_seconds)
        by (nonlinear_arith);
    assert((total_seconds % 3600) / 60 < 60) by (nonlinear_arith);
}

/// A page shows a non-empty stretch of the list, within it, of at most
/// `per_page` items.
pub proof fn page_within_list(page: i32, per_page: i32, total: usize)
    requires
        per_page > 0,
        i32::MIN <= (page - 1) * per_page <= i32::MAX,
        page_bounds(page, per_page, total) is Some,
    ensures
        ({
            let (start, end) = page_bounds(page, per_page, total).unwrap();
            start < end <= total && end - start <= per_page
        }),
{
}

} // verus!
