//! The catalog of speech models, the choice among them and where their files
//! live.
use vstd::prelude::*;
use crate::config::AppConfig;
use crate::error::WhisprError;
use crate::text::{owned, str_eq};

verus! {

/// A speech model that the application can download and use.
#[derive(Debug)]
pub struct WhisperModel {
    pub id: String,
    pub name: String,
    pub description: String,
    pub file_name: String,
    pub download_url: String,
    /// Its file is in the models folder.
    pub installed: bool,
    /// It is the model recommended for this machine.
    pub recommended: bool,
}

/// A speech model, as the contracts see it.
pub struct ModelView {
    pub id: Seq<char>,
    pub name: Seq<char>,
    pub description: Seq<char>,
    pub file_name: Seq<char>,
    pub download_url: Seq<char>,
    pub installed: bool,
    pub recommended: bool,
}

impl View for WhisperModel {
    type V = ModelView;

    open spec fn view(&self) -> ModelView {
        ModelView {
            id: self.id@,
            name: self.name@,
            description: self.description@,
            file_name: self.file_name@,
            download_url: self.download_url@,
            installed: self.installed,
            recommended: self.recommended,
        }
    }
}

pub const BASE_ID: &'static str = "base";
pub const BASE_NAME: &'static str = "Base";
pub const BASE_DESCRIPTION: &'static str = "Fast default for lighter Windows CPU machines.";
pub const BASE_FILE: &'static str = "ggml-base.bin";
pub const BASE_URL: &'static str = "https://huggingface.co/ggerganov/whisper.cpp/resolve/main/ggml-base.bin";

pub const SMALL_ID: &'static str = "small";
pub const SMALL_NAME: &'static str = "Small";
pub const SMALL_DESCRIPTION: &'static str = "Balanced quality and speed for Apple Silicon and stronger CPUs.";
pub const SMALL_FILE: &'static str = "ggml-small.bin";
pub const SMALL_URL: &'static str = "https://huggingface.co/ggerganov/whisper.cpp/resolve/main/ggml-small.bin";

pub const MEDIUM_ID: &'static str = "medium";
pub const MEDIUM_NAME: &'static str = "Medium";
pub const MEDIUM_DESCRIPTION: &'static str = "Better accuracy, slower on CPU-only Windows machines.";
pub const MEDIUM_FILE: &'static str = "ggml-medium.bin";
pub const MEDIUM_URL: &'static str = "https://huggingface.co/ggerganov/whisper.cpp/resolve/main/ggml-medium.bin";

/// The models of the catalog, in order; none installed, none recommended.
pub open spec fn catalog() -> Seq<ModelView> {
    seq![
        ModelView {
            id: BASE_ID@,
            name: BASE_NAME@,
            description: BASE_DESCRIPTION@,
            file_name: BASE_FILE@,
            download_url: BASE_URL@,
            installed: false,
            recommended: false,
        },
        ModelView {
            id: SMALL_ID@,
            name: SMALL_NAME@,
            description: SMALL_DESCRIPTION@,
            file_name: SMALL_FILE@,
            download_url: SMALL_URL@,
            installed: false,
            recommended: false,
        },
        ModelView {
            id: MEDIUM_ID@,
            name: MEDIUM_NAME@,
            description: MEDIUM_DESCRIPTION@,
            file_name: MEDIUM_FILE@,
            download_url: MEDIUM_URL@,
            installed: false,
            recommended: false,
        },
    ]
}

fn catalog_model(id: &str, name: &str, description: &str, file_name: &str, download_url: &str) -> (m: WhisperModel)
    ensures
        m@ == (ModelView {
            id: id@,
            name: name@,
            description: description@,
            file_name: file_name@,
            download_url: download_url@,
            installed: false,
            recommended: false,
        }),
{
    WhisperModel {
        id: owned(id),
        name: owned(name),
        description: owned(description),
        file_name: owned(file_name),
        download_url: owned(download_url),
        installed: false,
        recommended: false,
    }
}

/// The catalog of speech models.
pub fn model_catalog() -> (v: Vec<WhisperModel>)
    ensures
        v@.len() == catalog().len(),
        forall|i: int| 0 <= i < v@.len() ==> #[trigger] v@[i]@ == catalog()[i],
{
    let mut v: Vec<WhisperModel> = Vec::new();
    v.push(catalog_model(BASE_ID, BASE_NAME, BASE_DESCRIPTION, BASE_FILE, BASE_URL));
    v.push(catalog_model(SMALL_ID, SMALL_NAME, SMALL_DESCRIPTION, SMALL_FILE, SMALL_URL));
    v.push(catalog_model(MEDIUM_ID, MEDIUM_NAME, MEDIUM_DESCRIPTION, MEDIUM_FILE, MEDIUM_URL));
    v
}

/// The memory, in GiB, that the recommendation assumes this machine has.
pub open spec fn assumed_memory_gb() -> u64 {
    8
}

/// The memory that the recommendation assumes; no measurement is made.
pub fn approximate_memory_gb() -> (gb: u64)
    ensures
        gb == assumed_memory_gb(),
{
    8
}

/// The id of the model recommended for this machine: `small` with 16 GiB of
/// memory or more, `base` below that.
pub open spec fn recommended_id() -> Seq<char> {
    if assumed_memory_gb() >= 16 {
        SMALL_ID@
    } else {
        BASE_ID@
    }
}

/// The id of the model recommended for this machine.
pub fn recommended_model_id() -> (id: String)
    ensures
        id@ == recommended_id(),
{
    let memory_gb = approximate_memory_gb();
    if memory_gb >= 16 {
        owned(SMALL_ID)
    } else {
        owned(BASE_ID)
    }
}

/// The catalog entry `i` as the settings window lists it: installed as
/// `installed` says at `i` (not installed where it says nothing), recommended
/// when it is the recommended model.
pub open spec fn listed_model(i: int, installed: Seq<bool>) -> ModelView {
    ModelView {
        installed: i < installed.len() && installed[i],
        recommended: catalog()[i].id == recommended_id(),
        ..catalog()[i]
    }
}

/// The catalog with each model marked installed or not, by `installed`, which
/// holds one flag per catalog entry in catalog order, and marked recommended
/// or not.
pub fn available_models(installed: &Vec<bool>) -> (v: Vec<WhisperModel>)
    ensures
        v@.len() == catalog().len(),
        forall|i: int| 0 <= i < v@.len() ==> #[trigger] v@[i]@ == listed_model(i, installed@),
{
    let recommended = recommended_model_id();
    let entries = model_catalog();
    let mut v: Vec<WhisperModel> = Vec::new();
    let mut i: usize = 0;
    while i < entries.len()
        invariant
            entries@.len() == catalog().len(),
            forall|k: int| 0 <= k < entries@.len() ==> #[trigger] entries@[k]@ == catalog()[k],
            recommended@ == recommended_id(),
            i <= entries@.len(),
            v@.len() == i,
            forall|k: int| 0 <= k < i ==> #[trigger] v@[k]@ == listed_model(k, installed@),
        decreases entries@.len() - i,
    {
        let entry = &entries[i];
        let is_installed = i < installed.len() && installed[i];
        let is_recommended = str_eq(entry.id.as_str(), recommended.as_str());
        let model = WhisperModel {
            id: owned(entry.id.as_str()),
            name: owned(entry.name.as_str()),
            description: owned(entry.description.as_str()),
            file_name: owned(entry.file_name.as_str()),
            download_url: owned(entry.download_url.as_str()),
            installed: is_installed,
            recommended: is_recommended,
        };
        proof {
            assert(entry@ == catalog()[i as int]);
            assert(model@ == listed_model(i as int, installed@));
        }
        v.push(model);
        i = i + 1;
    }
    v
}


/// The first model of `ms` whose id is `id`.
pub open spec fn find_model(ms: Seq<ModelView>, id: Seq<char>) -> Option<ModelView>
    decreases ms.len(),
{
    if ms.len() == 0 {
        None
    } else if ms[0].id == id {
        Some(ms[0])
    } else {
        find_model(ms.drop_first(), id)
    }
}

proof fn lemma_find_model(ms: Seq<ModelView>, id: Seq<char>, i: int)
    requires
        0 <= i <= ms.len(),
        forall|k: int| 0 <= k < i ==> (#[trigger] ms[k]).id != id,
        i < ms.len() ==> ms[i].id == id,
    ensures
        find_model(ms, id) == if i < ms.len() {
            Some(ms[i])
        } else {
            None::<ModelView>
        },
    decreases i,
{
    if i > 0 {
        let t = ms.drop_first();
        assert forall|k: int| 0 <= k < i - 1 implies (#[trigger] t[k]).id != id by {
            assert(t[k] == ms[k + 1]);
        }
        assert(ms[0].id != id);
        lemma_find_model(t, id, i - 1);
    }
}

/// A file name that a folder path can be joined with on every platform: not
/// empty, not `.` or `..`, and free of `/`, `\` and `:`.
pub open spec fn is_plain_file_name(f: Seq<char>) -> bool {
    &&& f.len() > 0
    &&& forall|i: int| 0 <= i < f.len() ==> #[trigger] f[i] != '/' && f[i] != '\\' && f[i] != ':'
    &&& !(f.len() == 1 && f[0] == '.')
    &&& !(f.len() == 2 && f[0] == '.' && f[1] == '.')
}

/// A path separator on some platform: `/`, or `\` on Windows.
pub open spec fn is_path_separator(c: char) -> bool {
    c == '/' || c == '\\'
}

/// A folder path with a Windows verbatim prefix (`\\?\`), written with either
/// separator. Joining onto such a folder normalizes the whole path.
pub open spec fn has_verbatim_prefix(dir: Seq<char>) -> bool {
    &&& dir.len() >= 4
    &&& is_path_separator(dir[0])
    &&& is_path_separator(dir[1])
    &&& dir[2] == '?'
    &&& is_path_separator(dir[3])
}

/// A bare Windows drive such as `C:`, after which no separator is inserted.
pub open spec fn is_bare_drive(dir: Seq<char>) -> bool {
    dir.len() == 2 && ('A' <= dir[0] <= 'Z' || 'a' <= dir[0] <= 'z') && dir[1] == ':'
}

/// `p` is the folder path `dir` joined with the file name `file`: the file name
/// alone for an empty folder; appended directly after a trailing `/`; appended
/// after one path separator (`/`, or `\` on Windows) when the folder ends in
/// neither separator and is not a bare drive; and in every case appended
/// either directly or after one separator.
pub open spec fn joined_path(dir: Seq<char>, file: Seq<char>, p: Seq<char>) -> bool {
    &&& dir.len() == 0 ==> p == file
    &&& (dir.len() > 0 && dir.last() == '/') ==> p == dir + file
    &&& (dir.len() > 0 && !is_path_separator(dir.last()) && !is_bare_drive(dir)) ==> (p == dir
        + seq!['/'] + file || p == dir + seq!['\\'] + file)
    &&& {
        ||| p == dir + file
        ||| p == dir + seq!['/'] + file
        ||| p == dir + seq!['\\'] + file
    }
}

/// `Path::join` of a folder with a plain file name, read back as a `String`.
/// For a folder without a Windows verbatim prefix, the contract states the
/// shapes that the result has on every platform; which separator is inserted,
/// when one is, depends on the platform and is left unsaid. For a verbatim
/// folder, which Windows normalizes as a whole when joining, nothing is said.
#[verifier::external_body]
fn join_path(dir: &str, file: &str) -> (p: String)
    requires
        is_plain_file_name(file@),
    ensures
        !has_verbatim_prefix(dir@) ==> joined_path(dir@, file@, p@),
{
    std::path::Path::new(dir).join(file).to_string_lossy().into_owned()
}

proof fn lemma_catalog_file_names()
    ensures
        forall|i: int| 0 <= i < catalog().len() ==> is_plain_file_name(#[trigger] catalog()[i].file_name),
{
    reveal_strlit("ggml-base.bin");
    reveal_strlit("ggml-small.bin");
    reveal_strlit("ggml-medium.bin");
}

/// The index in the catalog of the model with id `id`, if there is one.
fn catalog_position(id: &str) -> (r: Option<usize>)
    ensures
        match r {
            Some(i) => i < catalog().len() && find_model(catalog(), id@) == Some(catalog()[i as int]),
            None => find_model(catalog(), id@) == None::<ModelView>,
        },
{
    let entries = model_catalog();
    let mut i: usize = 0;
    while i < entries.len()
        invariant
            entries@.len() == catalog().len(),
            forall|k: int| 0 <= k < entries@.len() ==> #[trigger] entries@[k]@ == catalog()[k],
            i <= entries@.len(),
            forall|k: int| 0 <= k < i ==> (#[trigger] catalog()[k]).id != id@,
        decreases entries@.len() - i,
    {
        if str_eq(entries[i].id.as_str(), id) {
            proof {
                assert(entries@[i as int]@ == catalog()[i as int]);
                lemma_find_model(catalog(), id@, i as int);
            }
            return Some(i);
        }
        proof {
            assert(entries@[i as int]@ == catalog()[i as int]);
        }
        i = i + 1;
    }
    proof {
        lemma_find_model(catalog(), id@, i as int);
    }
    None
}

/// Where the file of `model` lies: the models folder joined with its file name.
fn model_path(config: &AppConfig, model: &WhisperModel) -> (p: String)
    requires
        is_plain_file_name(model.file_name@),
    ensures
        !has_verbatim_prefix(config.models_dir@) ==> joined_path(config.models_dir@, model.file_name@, p@),
{
    join_path(config.models_dir.as_str(), model.file_name.as_str())
}

/// Where the file of each catalog model lies, in catalog order.
pub fn catalog_model_paths(config: &AppConfig) -> (v: Vec<String>)
    ensures
        v@.len() == catalog().len(),
        forall|i: int| 0 <= i < v@.len() ==> !has_verbatim_prefix(config.models_dir@) ==> joined_path(config.models_dir@, catalog()[i].file_name, #[trigger] v@[i]@),
{
    let entries = model_catalog();
    let mut v: Vec<String> = Vec::new();
    let mut i: usize = 0;
    proof {
        lemma_catalog_file_names();
    }
    while i < entries.len()
        invariant
            entries@.len() == catalog().len(),
            forall|k: int| 0 <= k < entries@.len() ==> #[trigger] entries@[k]@ == catalog()[k],
            forall|k: int| 0 <= k < catalog().len() ==> is_plain_file_name(#[trigger] catalog()[k].file_name),
            i <= entries@.len(),
            v@.len() == i,
            forall|k: int| 0 <= k < i ==> !has_verbatim_prefix(config.models_dir@) ==> joined_path(config.models_dir@, catalog()[k].file_name, #[trigger] v@[k]@),
        decreases entries@.len() - i,
    {
        proof {
            assert(entries@[i as int]@ == catalog()[i as int]);
            assert(is_plain_file_name(catalog()[i as int].file_name));
        }
        v.push(model_path(config, &entries[i]));
        i = i + 1;
    }
    v
}

/// The path of the file of the selected model, or `UnknownModel` with the
/// selected id when the catalog has no model of that id.
pub fn selected_model_path(config: &AppConfig) -> (r: Result<String, WhisprError>)
    ensures
        match find_model(catalog(), config.selected_model_id@) {
            Some(m) => r matches Ok(p) && (!has_verbatim_prefix(config.models_dir@) ==> joined_path(config.models_dir@, m.file_name, p@)),
            None => r matches Err(WhisprError::UnknownModel(id)) && id@ == config.selected_model_id@,
        },
{
    match catalog_position(config.selected_model_id.as_str()) {
        Some(i) => {
            let entries = model_catalog();
            proof {
                lemma_catalog_file_names();
                assert(entries@[i as int]@ == catalog()[i as int]);
                assert(is_plain_file_name(catalog()[i as int].file_name));
            }
            Ok(model_path(config, &entries[i]))
        },
        None => Err(WhisprError::UnknownModel(owned(config.selected_model_id.as_str()))),
    }
}

/// A model file to fetch: from where, and to which path.
#[derive(Debug)]
pub struct ModelDownload {
    pub url: String,
    pub target: String,
}

/// What fetching the model `model_id` takes: its download address and the
/// path of its file, or `UnknownModel` when the catalog has no such model.
pub fn plan_download(config: &AppConfig, model_id: &str) -> (r: Result<ModelDownload, WhisprError>)
    ensures
        match find_model(catalog(), model_id@) {
            Some(m) => r matches Ok(d) && d.url@ == m.download_url && (!has_verbatim_prefix(
                config.models_dir@,
            ) ==> joined_path(config.models_dir@, m.file_name, d.target@)),
            None => r matches Err(WhisprError::UnknownModel(id)) && id@ == model_id@,
        },
{
    match catalog_position(model_id) {
        Some(i) => {
            let entries = model_catalog();
            proof {
                lemma_catalog_file_names();
                assert(entries@[i as int]@ == catalog()[i as int]);
                assert(is_plain_file_name(catalog()[i as int].file_name));
            }
            let target = model_path(config, &entries[i]);
            Ok(ModelDownload { url: owned(entries[i].download_url.as_str()), target })
        },
        None => Err(WhisprError::UnknownModel(owned(model_id))),
    }
}


/// The models of the catalog have distinct ids.
pub proof fn law_catalog_ids_distinct()
    ensures
        forall|i: int, j: int|
            0 <= i < catalog().len() && 0 <= j < catalog().len() && i != j ==> #[trigger] catalog()[i].id
                != #[trigger] catalog()[j].id,
{
    reveal_strlit("base");
    reveal_strlit("small");
    reveal_strlit("medium");
    assert(catalog()[0].id[0] != catalog()[1].id[0]);
    assert(catalog()[0].id.len() != catalog()[2].id.len());
    assert(catalog()[1].id.len() != catalog()[2].id.len());
}

/// The recommended model is a model of the catalog, so the settings of a
/// first start name a model that can be found.
pub proof fn law_recommended_model_in_catalog()
    ensures
        find_model(catalog(), recommended_id()) is Some,
{
    assert(catalog()[0].id == recommended_id());
    lemma_find_model(catalog(), recommended_id(), 0);
}

/// Exactly one model of the listed catalog is marked recommended, whatever is
/// installed.
pub proof fn law_one_model_recommended(installed: Seq<bool>)
    ensures
        listed_model(0, installed).recommended,
        forall|i: int| 0 <= i < catalog().len() && #[trigger] listed_model(i, installed).recommended ==> i == 0,
{
    law_catalog_ids_distinct();
    assert(catalog()[0].id == recommended_id());
}


/// Where every catalog model is downloaded from.
pub open spec fn model_host() -> Seq<char> {
    "https://huggingface.co/ggerganov/whisper.cpp/resolve/main/"@
}

/// Each catalog model downloads its own file: its download address is the
/// model host followed by its file name; and the ids `base`, `small` and
/// `medium` name the files `ggml-base.bin`, `ggml-small.bin` and
/// `ggml-medium.bin`.
pub proof fn law_each_model_downloads_its_own_file(id: Seq<char>)
    ensures
        forall|i: int| 0 <= i < catalog().len() ==> (#[trigger] catalog()[i]).download_url == model_host()
            + catalog()[i].file_name,
        find_model(catalog(), id) matches Some(m) ==> m.download_url == model_host() + m.file_name,
        find_model(catalog(), "base"@) matches Some(m) && m.file_name == "ggml-base.bin"@,
        find_model(catalog(), "small"@) matches Some(m) && m.file_name == "ggml-small.bin"@,
        find_model(catalog(), "medium"@) matches Some(m) && m.file_name == "ggml-medium.bin"@,
{
    reveal_strlit("https://huggingface.co/ggerganov/whisper.cpp/resolve/main/");
    reveal_strlit("https://huggingface.co/ggerganov/whisper.cpp/resolve/main/ggml-base.bin");
    reveal_strlit("https://huggingface.co/ggerganov/whisper.cpp/resolve/main/ggml-small.bin");
    reveal_strlit("https://huggingface.co/ggerganov/whisper.cpp/resolve/main/ggml-medium.bin");
    reveal_strlit("ggml-base.bin");
    reveal_strlit("ggml-small.bin");
    reveal_strlit("ggml-medium.bin");
    assert(catalog()[0].download_url =~= model_host() + catalog()[0].file_name);
    assert(catalog()[1].download_url =~= model_host() + catalog()[1].file_name);
    assert(catalog()[2].download_url =~= model_host() + catalog()[2].file_name);
    law_catalog_ids_distinct();
    assert(catalog()[0].id != catalog()[1].id);
    assert(catalog()[0].id != catalog()[2].id);
    assert(catalog()[1].id != catalog()[2].id);
    lemma_find_model(catalog(), "base"@, 0);
    lemma_find_model(catalog(), "small"@, 1);
    lemma_find_model(catalog(), "medium"@, 2);
    if find_model(catalog(), id) is Some {
        let i = if id == catalog()[0].id { 0int } else if id == catalog()[1].id { 1int } else if id == catalog()[2].id { 2int } else { 3int };
        lemma_find_model(catalog(), id, i);
    }
}


/// The catalog knows the ids `base`, `small` and `medium` and no other, and
/// the model recommended with the assumed memory of 8 GiB is `base`.
pub proof fn law_known_model_ids(id: Seq<char>)
    ensures
        find_model(catalog(), id) is Some <==> (id == "base"@ || id == "small"@ || id == "medium"@),
        recommended_id() == "base"@,
{
    law_catalog_ids_distinct();
    assert(catalog()[0].id != catalog()[1].id);
    assert(catalog()[0].id != catalog()[2].id);
    assert(catalog()[1].id != catalog()[2].id);
    if id == catalog()[0].id {
        lemma_find_model(catalog(), id, 0);
    } else if id == catalog()[1].id {
        lemma_find_model(catalog(), id, 1);
    } else if id == catalog()[2].id {
        lemma_find_model(catalog(), id, 2);
    } else {
        lemma_find_model(catalog(), id, 3);
    }
}


/// The catalog entries, word for word.
pub proof fn law_models_texts()
    ensures
        BASE_ID@ == "base"@,
        BASE_NAME@ == "Base"@,
        BASE_DESCRIPTION@ == "Fast default for lighter Windows CPU machines."@,
        BASE_FILE@ == "ggml-base.bin"@,
        BASE_URL@ == "https://huggingface.co/ggerganov/whisper.cpp/resolve/main/ggml-base.bin"@,
        SMALL_ID@ == "small"@,
        SMALL_NAME@ == "Small"@,
        SMALL_DESCRIPTION@ == "Balanced quality and speed for Apple Silicon and stronger CPUs."@,
        SMALL_FILE@ == "ggml-small.bin"@,
        SMALL_URL@ == "https://huggingface.co/ggerganov/whisper.cpp/resolve/main/ggml-small.bin"@,
        MEDIUM_ID@ == "medium"@,
        MEDIUM_NAME@ == "Medium"@,
        MEDIUM_DESCRIPTION@ == "Better accuracy, slower on CPU-only Windows machines."@,
        MEDIUM_FILE@ == "ggml-medium.bin"@,
        MEDIUM_URL@ == "https://huggingface.co/ggerganov/whisper.cpp/resolve/main/ggml-medium.bin"@,
{
}

} // verus!
