//! Where the application's resources are looked for, and where its
//! configuration lives: `mango/config.lua` beside the program, created from
//! the bundled `lua/config.lua` on the first start.

use vstd::prelude::*;
use vstd::string::*;
use crate::brain::{lemma_texts_push, texts};
use crate::text::{join_path, path_join};

verus! {

/// The paths of `rel` joined onto `base`.
pub open spec fn joined_all(base: Seq<char>, rel: Seq<Seq<char>>) -> Seq<Seq<char>> {
    rel.map_values(|r: Seq<char>| path_join(base, r))
}

/// The order in which a resource is looked for: each relative candidate as it
/// stands (from the working directory), then beside the program, then two
/// folders above the program (the project root when run from a build folder).
pub open spec fn search_order(rel: Seq<Seq<char>>, exe_dir: Option<Seq<char>>, root: Option<Seq<char>>) -> Seq<Seq<char>> {
    rel + match exe_dir {
        Some(d) => joined_all(d, rel) + match root {
            Some(r) => joined_all(r, rel),
            None => Seq::empty(),
        },
        None => Seq::empty(),
    }
}

fn push_joined(out: &mut Vec<String>, base: &str, rel: &Vec<String>)
    ensures
        texts(final(out)@) == texts(old(out)@) + joined_all(base@, texts(rel@)),
{
    let ghost start = texts(out@);
    let n = rel.len();
    let mut i: usize = 0;
    while i < n
        invariant
            n == rel@.len(),
            i <= n,
            texts(out@) == start + joined_all(base@, texts(rel@)).take(i as int),
        decreases n - i,
    {
        let ghost before = out@;
        let joined = join_path(base, rel[i].as_str());
        out.push(joined);
        proof {
            lemma_texts_push(before, joined);
            assert(texts(rel@)[i as int] == rel@[i as int]@);
            assert(joined_all(base@, texts(rel@))[i as int] == path_join(base@, rel@[i as int]@));
            assert((start + joined_all(base@, texts(rel@)).take(i as int)).push(joined@) =~= start
                + joined_all(base@, texts(rel@)).take(i as int).push(joined@));
        }
        assert(joined_all(base@, texts(rel@)).take(i + 1) =~= joined_all(base@, texts(rel@)).take(
            i as int,
        ).push(path_join(base@, rel@[i as int]@)));
        assert(texts(out@) =~= start + joined_all(base@, texts(rel@)).take(i + 1));
        i = i + 1;
    }
    assert(joined_all(base@, texts(rel@)).take(rel.len() as int) =~= joined_all(base@, texts(rel@)));
}

/// The paths at which a resource named by the relative candidates `rel` is
/// looked for, in order (see [`search_order`]). `root` is only used together
/// with `exe_dir`.
pub fn resource_candidates(rel: &Vec<String>, exe_dir: Option<String>, root: Option<String>) -> (r: Vec<String>)
    ensures
        texts(r@) == search_order(
            texts(rel@),
            match exe_dir {
                Some(d) => Some(d@),
                None => None,
            },
            match root {
                Some(d) => Some(d@),
                None => None,
            },
        ),
{
    let mut out: Vec<String> = Vec::new();
    let n = rel.len();
    let mut i: usize = 0;
    while i < n
        invariant
            n == rel@.len(),
            i <= n,
            texts(out@) == texts(rel@).take(i as int),
        decreases n - i,
    {
        let ghost before = out@;
        out.push(rel[i].clone());
        proof {
            lemma_texts_push(before, rel@[i as int]);
        }
        assert(texts(out@) =~= texts(rel@).take(i + 1));
        i = i + 1;
    }
    assert(texts(rel@).take(rel.len() as int) =~= texts(rel@));
    let ghost after_rel = texts(out@);
    match &exe_dir {
        Some(d) => {
            push_joined(&mut out, d.as_str(), rel);
            match &root {
                Some(r) => {
                    push_joined(&mut out, r.as_str(), rel);
                },
                None => {},
            }
        },
        None => {},
    }
    proof {
        match exe_dir {
            Some(d) => match root {
                Some(r) => {
                    assert(texts(out@) =~= texts(rel@) + (joined_all(d@, texts(rel@)) + joined_all(r@, texts(rel@))));
                },
                None => {
                    assert(texts(out@) =~= texts(rel@) + (joined_all(d@, texts(rel@)) + Seq::empty()));
                },
            },
            None => {
                assert(texts(out@) =~= texts(rel@) + Seq::empty());
            },
        }
    }
    out
}

/// The index of the first candidate that was found to exist.
pub open spec fn first_existing(exists: Seq<bool>, from: int, count: int) -> Option<int>
    decreases count - from,
{
    if from >= count {
        None
    } else if exists[from] {
        Some(from)
    } else {
        first_existing(exists, from + 1, count)
    }
}

/// The first candidate found to exist is the one taken: `first_existing`
/// answers an index that exists and before which none does, and none only
/// when no candidate in range exists.
pub proof fn first_existing_is_least(exists: Seq<bool>, count: int)
    requires
        0 <= count <= exists.len(),
    ensures
        first_existing(exists, 0, count) matches Some(i) ==> 0 <= i < count && exists[i]
            && forall|j: int| 0 <= j < i ==> !exists[j],
        first_existing(exists, 0, count) is None ==> forall|j: int| 0 <= j < count ==> !exists[j],
{
    lemma_first_existing_from(exists, 0, count);
}

proof fn lemma_first_existing_from(exists: Seq<bool>, from: int, count: int)
    requires
        0 <= from,
        count <= exists.len(),
    ensures
        first_existing(exists, from, count) matches Some(i) ==> from <= i < count && exists[i]
            && forall|j: int| from <= j < i ==> !exists[j],
        first_existing(exists, from, count) is None ==> forall|j: int| from <= j < count ==> !exists[j],
    decreases count - from,
{
    if from < count && !exists[from] {
        lemma_first_existing_from(exists, from + 1, count);
    }
}

/// The first of `probes` that exists, where `exists[i]` says whether
/// `probes[i]` does (probes without an answer count as absent).
pub fn find_resource(probes: &Vec<String>, exists: &Vec<bool>) -> (r: Option<String>)
    ensures
        match first_existing(
            exists@,
            0,
            if probes@.len() < exists@.len() {
                probes@.len() as int
            } else {
                exists@.len() as int
            },
        ) {
            Some(i) => r matches Some(p) && p@ == probes@[i]@,
            None => r is None,
        },
        r matches Some(p) ==> exists|i: int|
            0 <= i < probes@.len() && i < exists@.len() && exists@[i] && p@ == (#[trigger] probes@[i])@
                && forall|j: int| 0 <= j < i ==> !exists@[j],
        r is None ==> forall|j: int| 0 <= j < probes@.len() && j < exists@.len() ==> !exists@[j],
{
    let count = if probes.len() < exists.len() {
        probes.len()
    } else {
        exists.len()
    };
    let mut i: usize = 0;
    while i < count
        invariant
            i <= count,
            count <= probes@.len(),
            count <= exists@.len(),
            count == (if probes@.len() < exists@.len() {
                probes@.len()
            } else {
                exists@.len()
            }),
            first_existing(exists@, 0, count as int) == first_existing(exists@, i as int, count as int),
            forall|j: int| 0 <= j < i ==> !exists@[j],
        decreases count - i,
    {
        if exists[i] {
            return Some(probes[i].clone());
        }
        assert(first_existing(exists@, i as int, count as int) == first_existing(exists@, i + 1, count as int));
        i = i + 1;
    }
    None
}

/// The relative places of the bundled configuration template.
pub open spec fn bundled_config_places() -> Seq<Seq<char>> {
    seq!["lua/config.lua"@, "../lua/config.lua"@, "../../lua/config.lua"@]
}

/// Where the bundled configuration template is looked for.
pub fn bundled_config_candidates() -> (r: Vec<String>)
    ensures
        texts(r@) == bundled_config_places(),
{
    let mut r: Vec<String> = Vec::new();
    r.push(String::from_str("lua/config.lua"));
    r.push(String::from_str("../lua/config.lua"));
    r.push(String::from_str("../../lua/config.lua"));
    assert(texts(r@) =~= bundled_config_places());
    r
}

/// The configuration folder `mango` beside the program, whose folder is
/// `exe_dir` (none when that folder is unknown).
pub fn config_dir(exe_dir: Option<String>) -> (r: Option<String>)
    ensures
        match exe_dir {
            Some(d) => r matches Some(c) && c@ == path_join(d@, "mango"@),
            None => r is None,
        },
{
    match exe_dir {
        Some(d) => Some(join_path(d.as_str(), "mango")),
        None => None,
    }
}

/// The configuration file `mango/config.lua` beside the program.
pub fn config_file(exe_dir: Option<String>) -> (r: Option<String>)
    ensures
        match exe_dir {
            Some(d) => r matches Some(c) && c@ == path_join(path_join(d@, "mango"@), "config.lua"@),
            None => r is None,
        },
{
    match config_dir(exe_dir) {
        Some(dir) => Some(join_path(dir.as_str(), "config.lua")),
        None => None,
    }
}

/// What preparing the configuration asks for next.
#[derive(Debug)]
pub enum ConfigAction {
    /// Create this folder (and its parents).
    CreateFolder(String),
    /// Report whether this file exists.
    CheckFile(String),
    /// Look for the bundled template (see [`bundled_config_candidates`]).
    FindTemplate,
    /// Copy the template to the configuration file.
    CopyTemplate { from: String, to: String },
    /// The configuration file, or why it is not available.
    Finished(Result<String, String>),
}

/// The step that preparing the configuration waits in.
#[derive(PartialEq, Eq, Structural, Clone, Copy, Debug)]
pub enum SetupStage {
    Folder,
    File,
    Template,
    Copy,
    Done,
}

/// Preparing `mango/config.lua` beside the program: the folder is created,
/// and when the file is missing the bundled template is copied into it.
#[derive(Debug)]
pub struct ConfigSetup {
    dir: String,
    config: String,
    stage: SetupStage,
}

/// The message when the program's folder is unknown.
pub open spec fn no_folder_message() -> Seq<char> {
    "Не удалось определить папку рядом с бинарником"@
}

impl ConfigSetup {
    /// The configuration folder.
    pub closed spec fn dir(&self) -> Seq<char> {
        self.dir@
    }

    /// The configuration file.
    pub closed spec fn config(&self) -> Seq<char> {
        self.config@
    }

    /// The step the preparation waits in.
    pub closed spec fn stage(&self) -> SetupStage {
        self.stage
    }

    /// The folder was created, or could not be (with the reason).
    pub fn folder_created(&mut self, result: Result<(), String>) -> (r: ConfigAction)
        requires
            old(self).stage() == SetupStage::Folder,
        ensures
            final(self).dir() == old(self).dir(),
            final(self).config() == old(self).config(),
            match result {
                Ok(()) => final(self).stage() == SetupStage::File && (r matches ConfigAction::CheckFile(f)
                    && f@ == old(self).config()),
                Err(e) => final(self).stage() == SetupStage::Done && (r matches ConfigAction::Finished(Err(m))
                    && m@ == "Не удалось создать "@ + old(self).dir() + ": "@ + e@),
            },
    {
        match result {
            Ok(()) => {
                self.stage = SetupStage::File;
                ConfigAction::CheckFile(self.config.clone())
            },
            Err(e) => {
                self.stage = SetupStage::Done;
                let mut m = String::from_str("Не удалось создать ");
                m.append(self.dir.as_str());
                m.append(": ");
                m.append(e.as_str());
                ConfigAction::Finished(Err(m))
            },
        }
    }

    /// Whether the configuration file exists: an existing file is the result,
    /// a missing one is made from the template.
    pub fn file_checked(&mut self, exists: bool) -> (r: ConfigAction)
        requires
            old(self).stage() == SetupStage::File,
        ensures
            final(self).dir() == old(self).dir(),
            final(self).config() == old(self).config(),
            exists ==> final(self).stage() == SetupStage::Done && (r matches ConfigAction::Finished(Ok(c))
                && c@ == old(self).config()),
            !exists ==> final(self).stage() == SetupStage::Template && r is FindTemplate,
    {
        if exists {
            self.stage = SetupStage::Done;
            ConfigAction::Finished(Ok(self.config.clone()))
        } else {
            self.stage = SetupStage::Template;
            ConfigAction::FindTemplate
        }
    }

    /// Where the template was found, if it was.
    pub fn template_found(&mut self, found: Option<String>) -> (r: ConfigAction)
        requires
            old(self).stage() == SetupStage::Template,
        ensures
            final(self).dir() == old(self).dir(),
            final(self).config() == old(self).config(),
            match found {
                Some(t) => final(self).stage() == SetupStage::Copy && (r matches ConfigAction::CopyTemplate {
                    from,
                    to,
                } && from@ == t@ && to@ == old(self).config()),
                None => final(self).stage() == SetupStage::Done && (r matches ConfigAction::Finished(Err(m))
                    && m@ == "config.lua не найден в ресурсах"@),
            },
    {
        match found {
            Some(t) => {
                self.stage = SetupStage::Copy;
                ConfigAction::CopyTemplate { from: t, to: self.config.clone() }
            },
            None => {
                self.stage = SetupStage::Done;
                ConfigAction::Finished(Err(String::from_str("config.lua не найден в ресурсах")))
            },
        }
    }

    /// The template was copied, or could not be (with the reason).
    pub fn template_copied(&mut self, result: Result<(), String>) -> (r: ConfigAction)
        requires
            old(self).stage() == SetupStage::Copy,
        ensures
            final(self).dir() == old(self).dir(),
            final(self).config() == old(self).config(),
            final(self).stage() == SetupStage::Done,
            match result {
                Ok(()) => r matches ConfigAction::Finished(Ok(c)) && c@ == old(self).config(),
                Err(e) => r matches ConfigAction::Finished(Err(m)) && m@ == "Не удалось скопировать config.lua: "@ + e@,
            },
    {
        self.stage = SetupStage::Done;
        match result {
            Ok(()) => ConfigAction::Finished(Ok(self.config.clone())),
            Err(e) => {
                let mut m = String::from_str("Не удалось скопировать config.lua: ");
                m.append(e.as_str());
                ConfigAction::Finished(Err(m))
            },
        }
    }
}

/// Starts preparing the configuration of the program in `exe_dir`.
pub fn ensure_config(exe_dir: Option<String>) -> (r: (ConfigSetup, ConfigAction))
    ensures
        match exe_dir {
            Some(d) => {
                &&& r.0.dir() == path_join(d@, "mango"@)
                &&& r.0.config() == path_join(path_join(d@, "mango"@), "config.lua"@)
                &&& r.0.stage() == SetupStage::Folder
                &&& r.1 matches ConfigAction::CreateFolder(f) && f@ == r.0.dir()
            },
            None => {
                &&& r.0.stage() == SetupStage::Done
                &&& r.1 matches ConfigAction::Finished(Err(e)) && e@ == no_folder_message()
            },
        },
{
    match config_dir(exe_dir) {
        Some(dir) => {
            let config = join_path(dir.as_str(), "config.lua");
            let folder = dir.clone();
            (ConfigSetup { dir, config, stage: SetupStage::Folder }, ConfigAction::CreateFolder(folder))
        },
        None => (
            ConfigSetup { dir: String::new(), config: String::new(), stage: SetupStage::Done },
            ConfigAction::Finished(Err(String::from_str("Не удалось определить папку рядом с бинарником"))),
        ),
    }
}

} // verus!
