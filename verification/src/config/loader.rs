//! Where configuration files are looked for. Reading them, expanding
//! environment variables in them and parsing their YAML is the caller's.

use vstd::prelude::*;
use crate::text::{opt_view, push_str, seq_views, str_is_empty, to_owned_string};

verus! {

/// The name of a project configuration file, and of the global one.
pub open spec fn config_file_name() -> Seq<char> {
    ".pmp-deploy.yaml"@
}

/// `dir` joined with the relative name `name` (`Path::join`): the name
/// alone when `dir` is empty, else with a slash between them unless `dir`
/// already ends with one.
pub open spec fn path_join(dir: Seq<char>, name: Seq<char>) -> Seq<char> {
    if dir.len() == 0 {
        name
    } else if dir.last() == '/' {
        dir + name
    } else {
        dir + "/"@ + name
    }
}

fn ends_with_slash(s: &str) -> (r: bool)
    ensures
        r == (s@.len() > 0 && s@.last() == '/'),
{
    let v = crate::text::chars_of(s);
    v.len() > 0 && v[v.len() - 1] == '/'
}

/// Joins a directory and a relative file name.
pub fn join_path(dir: &str, name: &str) -> (r: String)
    ensures
        r@ == path_join(dir@, name@),
{
    if str_is_empty(dir) {
        to_owned_string(name)
    } else if ends_with_slash(dir) {
        let mut p = to_owned_string(dir);
        push_str(&mut p, name);
        p
    } else {
        let mut p = to_owned_string(dir);
        push_str(&mut p, "/");
        push_str(&mut p, name);
        p
    }
}

/// Why a configuration could not be found.
#[derive(Debug, Clone)]
pub enum LoaderError {
    /// No project configuration in the current directory.
    ProjectConfigMissing(String),
    /// A configuration file that does not exist.
    FileNotFound(String),
}

/// The message of a loader error.
pub open spec fn loader_error_text(e: LoaderError) -> Seq<char> {
    match e {
        LoaderError::ProjectConfigMissing(dir) => "No .pmp-deploy.yaml found in current directory: "@ + dir@,
        LoaderError::FileNotFound(path) => "Configuration file not found: "@ + path@,
    }
}

impl LoaderError {
    pub fn to_string(&self) -> (r: String)
        ensures
            r@ == loader_error_text(*self),
    {
        match self {
            LoaderError::ProjectConfigMissing(dir) => {
                let mut m = to_owned_string("No .pmp-deploy.yaml found in current directory: ");
                push_str(&mut m, dir.as_str());
                m
            },
            LoaderError::FileNotFound(path) => {
                let mut m = to_owned_string("Configuration file not found: ");
                push_str(&mut m, path.as_str());
                m
            },
        }
    }
}

/// Finds configuration files: explicitly given paths win over the
/// default places.
#[derive(Debug, Clone)]
pub struct ConfigLoader {
    pub project_config_path: Option<String>,
    pub global_config_path: Option<String>,
}

impl Default for ConfigLoader {
    fn default() -> (r: Self)
        ensures
            r.project_config_path is None,
            r.global_config_path is None,
    {
        ConfigLoader { project_config_path: None, global_config_path: None }
    }
}

impl ConfigLoader {
    pub fn new() -> (r: Self)
        ensures
            r.project_config_path is None,
            r.global_config_path is None,
    {
        ConfigLoader { project_config_path: None, global_config_path: None }
    }

    pub fn with_project_config(self, path: String) -> (r: Self)
        ensures
            r.project_config_path == Some(path),
            r.global_config_path == self.global_config_path,
    {
        ConfigLoader { project_config_path: Some(path), ..self }
    }

    pub fn with_global_config(self, path: String) -> (r: Self)
        ensures
            r.global_config_path == Some(path),
            r.project_config_path == self.project_config_path,
    {
        ConfigLoader { global_config_path: Some(path), ..self }
    }

    /// The project configuration file looked for in `current_dir`.
    pub fn default_project_config(current_dir: &str) -> (r: String)
        ensures
            r@ == path_join(current_dir@, config_file_name()),
    {
        join_path(current_dir, ".pmp-deploy.yaml")
    }

    /// The project configuration file: the given one; else the one in
    /// `current_dir` when it exists (`default_exists`); else an error.
    pub fn resolve_project_config_path(&self, current_dir: &str, default_exists: bool) -> (r: Result<String, LoaderError>)
        ensures
            match self.project_config_path {
                Some(p) => r matches Ok(s) && s@ == p@,
                None => if default_exists {
                    r matches Ok(s) && s@ == path_join(current_dir@, config_file_name())
                } else {
                    r matches Err(LoaderError::ProjectConfigMissing(d)) && d@ == current_dir@
                },
            },
    {
        match &self.project_config_path {
            Some(p) => Ok(p.clone()),
            None => if default_exists {
                Ok(Self::default_project_config(current_dir))
            } else {
                Err(LoaderError::ProjectConfigMissing(to_owned_string(current_dir)))
            },
        }
    }

    /// The global configuration file: the given one; else the one in the
    /// home directory; else the bare file name.
    pub fn resolve_global_config_path(&self, home: Option<&str>) -> (r: String)
        ensures
            r@ == (match self.global_config_path {
                Some(p) => p@,
                None => match home {
                    Some(h) => path_join(h@, config_file_name()),
                    None => config_file_name(),
                },
            }),
    {
        match &self.global_config_path {
            Some(p) => p.clone(),
            None => match home {
                Some(h) => join_path(h, ".pmp-deploy.yaml"),
                None => to_owned_string(".pmp-deploy.yaml"),
            },
        }
    }

    /// Checks that a configuration file exists.
    pub fn check_config_file(path: &str, exists: bool) -> (r: Result<(), LoaderError>)
        ensures
            exists ==> r is Ok,
            !exists ==> (r matches Err(LoaderError::FileNotFound(p)) && p@ == path@),
    {
        if exists { Ok(()) } else { Err(LoaderError::FileNotFound(to_owned_string(path))) }
    }

    /// The configuration file of a project whose (expanded) directory is `dir`.
    pub fn project_config_path(dir: &str) -> (r: String)
        ensures
            r@ == path_join(dir@, config_file_name()),
    {
        join_path(dir, ".pmp-deploy.yaml")
    }

    /// The project configuration files found: of the candidate files
    /// (path, whether it exists), those that exist, in order.
    pub fn find_project_configs(&self, candidates: &Vec<(String, bool)>) -> (r: Vec<String>)
        ensures
            seq_views(r@) == candidates@.filter(|c: (String, bool)| c.1).map_values(|c: (String, bool)| c.0@),
    {
        let mut out: Vec<String> = Vec::new();
        let mut i: usize = 0;
        proof {
            reveal(Seq::filter);
            assert(candidates@.take(0).filter(|c: (String, bool)| c.1) =~= Seq::<(String, bool)>::empty());
        }
        while i < candidates.len()
            invariant
                i <= candidates@.len(),
                seq_views(out@) == candidates@.take(i as int).filter(|c: (String, bool)| c.1).map_values(|c: (String, bool)| c.0@),
            decreases candidates.len() - i,
        {
            let ghost before = out@;
            proof {
                let t = candidates@.take(i + 1);
                assert(t.drop_last() =~= candidates@.take(i as int));
                reveal(Seq::filter);
                assert(t.last() == candidates@[i as int]);
            }
            if candidates[i].1 {
                out.push(candidates[i].0.clone());
                assert(seq_views(out@) =~= seq_views(before).push(candidates@[i as int].0@));
            }
            assert(seq_views(out@) =~= candidates@.take(i + 1).filter(|c: (String, bool)| c.1).map_values(|c: (String, bool)| c.0@));
            i = i + 1;
        }
        assert(candidates@.take(candidates@.len() as int) =~= candidates@);
        out
    }

    /// The warning of a project whose configuration file is missing.
    pub fn missing_project_warning(project: &str, path: &str) -> (r: String)
        ensures
            r@ == "Project config not found for "@ + project@ + ": "@ + path@,
    {
        let mut m = to_owned_string("Project config not found for ");
        push_str(&mut m, project);
        push_str(&mut m, ": ");
        push_str(&mut m, path);
        m
    }
}

} // verus!
