//! What a project file says of a project: its name, and where its models
//! and its macros are looked for.

use vstd::prelude::*;
use vstd::string::StringExecFns;

verus! {

/// What a project file says of a project.
#[derive(Debug)]
pub struct DbtProjectSpec {
    pub name: String,
    pub model_paths: Vec<String>,
    pub macro_paths: Vec<String>,
}

/// The one path that is given.
pub open spec fn single_path(paths: Seq<String>, path: Seq<char>) -> bool {
    paths.len() == 1 && paths[0]@ == path
}

/// Where models are looked for when the project file does not say.
pub fn default_model_paths() -> (paths: Vec<String>)
    ensures
        single_path(paths@, "models"@),
{
    let mut paths: Vec<String> = Vec::new();
    paths.push(String::from_str("models"));
    paths
}

/// Where macros are looked for when the project file does not say.
pub fn default_macro_paths() -> (paths: Vec<String>)
    ensures
        single_path(paths@, "macros"@),
{
    let mut paths: Vec<String> = Vec::new();
    paths.push(String::from_str("macros"));
    paths
}

impl DbtProjectSpec {
    /// What a project file says, with the default where it names no paths
    /// for models or for macros.
    pub fn from_parts(
        name: String,
        model_paths: Option<Vec<String>>,
        macro_paths: Option<Vec<String>>,
    ) -> (spec: DbtProjectSpec)
        ensures
            spec.name == name,
            match model_paths {
                Some(paths) => spec.model_paths == paths,
                None => single_path(spec.model_paths@, "models"@),
            },
            match macro_paths {
                Some(paths) => spec.macro_paths == paths,
                None => single_path(spec.macro_paths@, "macros"@),
            },
    {
        DbtProjectSpec {
            name,
            model_paths: match model_paths {
                Some(paths) => paths,
                None => default_model_paths(),
            },
            macro_paths: match macro_paths {
                Some(paths) => paths,
                None => default_macro_paths(),
            },
        }
    }

    /// Takes over what a project file says now. Where the file could not be
    /// read, nothing changes, and the reason is handed back.
    pub fn refresh(&mut self, parsed: Result<DbtProjectSpec, String>) -> (r: Result<(), String>)
        ensures
            match parsed {
                Ok(spec) => r is Ok && *final(self) == spec,
                Err(reason) => r == Err::<(), String>(reason) && *final(self) == *old(self),
            },
    {
        match parsed {
            Ok(spec) => {
                *self = spec;
                Ok(())
            },
            Err(reason) => Err(reason),
        }
    }
}

} // verus!
