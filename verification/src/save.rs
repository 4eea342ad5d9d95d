//! Where tasks are saved. Writing and reading the files is done by the program
//! around the library.

use vstd::prelude::*;

verus! {

/// The directory that holds the saved task lists.
pub open spec fn save_dir_text() -> Seq<char> {
    "./data/save"@
}

/// The file that a task list is saved to: `tuidui_save.json` in the save directory.
pub open spec fn save_file_text() -> Seq<char> {
    save_dir_text() + "/"@ + "tuidui_save"@ + ".json"@
}

/// The directory that holds the saved task lists; every file in it is read back.
pub fn save_dir() -> (dir: &'static str)
    ensures
        dir@ == save_dir_text(),
{
    "./data/save"
}

/// The path a task list is saved to.
pub fn save_file_path() -> (path: String)
    ensures
        path@ == save_file_text(),
{
    let mut path = save_dir().to_owned();
    path.append("/");
    path.append("tuidui_save");
    path.append(".json");
    path
}

/// A task list is saved to `./data/save/tuidui_save.json`.
pub proof fn lemma_save_file_path()
    ensures
        save_file_text() == "./data/save/tuidui_save.json"@,
        save_dir_text() == "./data/save"@,
{
    reveal_strlit("./data/save");
    reveal_strlit("/");
    reveal_strlit("tuidui_save");
    reveal_strlit(".json");
    reveal_strlit("./data/save/tuidui_save.json");
    assert(save_file_text() =~= "./data/save/tuidui_save.json"@);
}

} // verus!
