//! The pages of the knowledge base, and where their files lie.
//!
//! Each page is a Markdown file under `kb/`, in a directory named after the
//! language it is written in.

use vstd::prelude::*;
use vstd::string::StringExecFns;

verus! {

/// The path of the page `page` in the language `lang`.
pub open spec fn page_path(lang: Seq<char>, page: Seq<char>) -> Seq<char> {
    "kb/"@ + lang + "/"@ + page + ".md"@
}

/// A file that is to be loaded under a key.
#[derive(Debug)]
pub struct DynamicAssetFile {
    pub key: String,
    pub path: String,
}

/// The pages of the knowledge base, each by the number under which the loader
/// holds it.
#[derive(Copy, Clone, Debug, PartialEq, Eq, Structural)]
pub struct NotationKnowledgeBaseAssets {
    pub kb_welcome: u64,
    pub kb_sound: u64,
    pub kb_scale: u64,
    pub kb_guitar: u64,
}

fn get_page_path(lang: &str, page: &str) -> (path: String)
    ensures
        path@ == page_path(lang@, page@),
{
    let mut path = String::from_str("kb/");
    path.append(lang);
    path.append("/");
    path.append(page);
    path.append(".md");
    path
}

fn asset_file(key: &str, path: String) -> (file: DynamicAssetFile)
    ensures
        file.key@ == key@,
        file.path@ == path@,
{
    DynamicAssetFile { key: String::from_str(key), path }
}

impl NotationKnowledgeBaseAssets {
    /// The path of the welcome page in the language `lang`.
    pub fn get_welcome_path(lang: &str) -> (path: String)
        ensures
            path@ == page_path(lang@, "welcome"@),
    {
        get_page_path(lang, "welcome")
    }

    /// The path of the sound page in the language `lang`.
    pub fn get_sound_path(lang: &str) -> (path: String)
        ensures
            path@ == page_path(lang@, "sound"@),
    {
        get_page_path(lang, "sound")
    }

    /// The path of the scale page in the language `lang`.
    pub fn get_scale_path(lang: &str) -> (path: String)
        ensures
            path@ == page_path(lang@, "scale"@),
    {
        get_page_path(lang, "scale")
    }

    /// The path of the guitar page in the language `lang`.
    pub fn get_guitar_path(lang: &str) -> (path: String)
        ensures
            path@ == page_path(lang@, "guitar"@),
    {
        get_page_path(lang, "guitar")
    }

    /// The pages in the order welcome, sound, scale, guitar.
    pub fn get_assets(&self) -> (assets: Vec<u64>)
        ensures
            assets@ == seq![self.kb_welcome, self.kb_sound, self.kb_scale, self.kb_guitar],
    {
        let mut assets: Vec<u64> = Vec::new();
        assets.push(self.kb_welcome);
        assets.push(self.kb_sound);
        assets.push(self.kb_scale);
        assets.push(self.kb_guitar);
        assert(assets@ =~= seq![self.kb_welcome, self.kb_sound, self.kb_scale, self.kb_guitar]);
        assets
    }

    /// The files to load for the language `lang`: the four pages in the
    /// order welcome, sound, scale, guitar, each under its key.
    pub fn setup_extra_keys(lang: &str) -> (files: Vec<DynamicAssetFile>)
        ensures
            files@.len() == 4,
            files@[0].key@ == "kb_welcome"@,
            files@[0].path@ == page_path(lang@, "welcome"@),
            files@[1].key@ == "kb_sound"@,
            files@[1].path@ == page_path(lang@, "sound"@),
            files@[2].key@ == "kb_scale"@,
            files@[2].path@ == page_path(lang@, "scale"@),
            files@[3].key@ == "kb_guitar"@,
            files@[3].path@ == page_path(lang@, "guitar"@),
    {
        let mut files: Vec<DynamicAssetFile> = Vec::new();
        files.push(asset_file("kb_welcome", Self::get_welcome_path(lang)));
        files.push(asset_file("kb_sound", Self::get_sound_path(lang)));
        files.push(asset_file("kb_scale", Self::get_scale_path(lang)));
        files.push(asset_file("kb_guitar", Self::get_guitar_path(lang)));
        files
    }
}

} // verus!
