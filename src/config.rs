use vstd::prelude::*;
use crate::text::{join, joined, views};

verus! {

/// Why a workspace's projects could not be resolved.
#[derive(Clone, Debug)]
pub enum ConfigError {
    /// The workspace defines no project.
    NoProjects,
    /// The project asked for is not among those defined.
    ProjectNotFound { name: String, available: String },
    /// Several projects are defined and none was selected.
    SeveralProjects { available: String },
}

/// The workspace's root package, as far as project selection reads it.
#[derive(Clone, Debug)]
pub struct RootPackage {
    pub name: String,
    pub default_run: Option<String>,
}

/// The resolved projects of a workspace, by name, and the one to run.
#[derive(Clone, Debug)]
pub struct Config {
    /// absolute path to the working dir
    pub working_dir: String,
    pub projects: Vec<String>,
    /// index into `projects` of the project to run
    pub default_run: Option<usize>,
    pub watch: bool,
}

/// The project names, as shown in messages.
pub open spec fn names_line(projects: Seq<String>) -> Seq<char> {
    joined(views(projects), ", "@)
}

/// Lists the project names, separated by commas.
pub fn names(projects: &Vec<String>) -> (r: String)
    ensures
        r@ == names_line(projects@),
{
    join(projects, ", ")
}

/// The project name that selection looks for: the one given on the command
/// line, else the root package's default binary, else its name.
pub open spec fn wanted(cli_project: Option<String>, root: Option<RootPackage>) -> Option<Seq<char>> {
    match cli_project {
        Option::Some(p) => Option::Some(p@),
        Option::None => match root {
            Option::Some(pkg) => match pkg.default_run {
                Option::Some(d) => Option::Some(d@),
                Option::None => Option::Some(pkg.name@),
            },
            Option::None => Option::None,
        },
    }
}

/// `k` is the first place of `w` in `projects`.
pub open spec fn first_at(projects: Seq<String>, w: Seq<char>, k: int) -> bool {
    0 <= k < projects.len() && projects[k]@ == w && forall|j: int| 0 <= j < k ==> projects[j]@ != w
}

/// `w` is among `projects`.
pub open spec fn defines(projects: Seq<String>, w: Seq<char>) -> bool {
    exists|k: int| 0 <= k < projects.len() && projects[k]@ == w
}

fn find_name(projects: &Vec<String>, w: &String) -> (r: Option<usize>)
    ensures
        match r {
            Option::Some(k) => first_at(projects@, w@, k as int),
            Option::None => !defines(projects@, w@),
        },
{
    let mut i: usize = 0;
    while i < projects.len()
        invariant
            i <= projects@.len(),
            forall|j: int| 0 <= j < i ==> projects@[j]@ != w@,
        decreases projects.len() - i,
    {
        if projects[i] == *w {
            return Option::Some(i);
        }
        i = i + 1;
    }
    Option::None
}

/// What resolving `projects` gives: no project is an error; a wanted name
/// that is not defined is an error; a name given on the command line keeps
/// that project alone and runs it; otherwise all projects are kept, and the
/// first one with the wanted name, if any, is run.
pub open spec fn loads_as(
    projects: Seq<String>,
    cli_project: Option<String>,
    root: Option<RootPackage>,
    r: Result<Config, ConfigError>,
) -> bool {
    if projects.len() == 0 {
        r matches Err(ConfigError::NoProjects)
    } else {
        match wanted(cli_project, root) {
            Option::None => match r {
                Ok(c) => c.projects@ == projects && c.default_run is None,
                _ => false,
            },
            Option::Some(w) => if !defines(projects, w) {
                match r {
                    Err(ConfigError::ProjectNotFound { name, available }) => name@ == w
                        && available@ == names_line(projects),
                    _ => false,
                }
            } else if cli_project is Some {
                match r {
                    Ok(c) => c.projects@.len() == 1 && c.projects@[0]@ == w && c.default_run
                        == Some(0usize),
                    _ => false,
                }
            } else {
                match r {
                    Ok(c) => c.projects@ == projects && match c.default_run {
                        Option::Some(k) => first_at(projects, w, k as int),
                        Option::None => false,
                    },
                    _ => false,
                }
            },
        }
    }
}

impl Config {
    /// Resolves the workspace's `projects` (by name) against the project
    /// asked for on the command line, or failing that the root package.
    /// A project given on the command line becomes the only one kept.
    pub fn load(
        working_dir: String,
        projects: Vec<String>,
        cli_project: Option<String>,
        root_package: Option<RootPackage>,
        watch: bool,
    ) -> (r: Result<Config, ConfigError>)
        ensures
            loads_as(projects@, cli_project, root_package, r),
            r matches Ok(c) ==> c.working_dir == working_dir && c.watch == watch,
    {
        if projects.len() == 0 {
            return Err(ConfigError::NoProjects);
        }
        match cli_project {
            Option::Some(p) => {
                match find_name(&projects, &p) {
                    Option::Some(k) => {
                        let kept = vec![projects[k].clone()];
                        Ok(Config { working_dir, projects: kept, default_run: Some(0), watch })
                    },
                    Option::None => {
                        let available = names(&projects);
                        Err(ConfigError::ProjectNotFound { name: p, available })
                    },
                }
            },
            Option::None => {
                let want = match root_package {
                    Option::Some(pkg) => match pkg.default_run {
                        Option::Some(d) => Option::Some(d),
                        Option::None => Option::Some(pkg.name),
                    },
                    Option::None => Option::None,
                };
                match want {
                    Option::Some(w) => match find_name(&projects, &w) {
                        Option::Some(k) => Ok(
                            Config { working_dir, projects, default_run: Some(k), watch },
                        ),
                        Option::None => {
                            let available = names(&projects);
                            Err(ConfigError::ProjectNotFound { name: w, available })
                        },
                    },
                    Option::None => Ok(Config { working_dir, projects, default_run: None, watch }),
                }
            },
        }
    }

    /// The index of the project to run, if one was selected.
    pub fn current_project(&self) -> (r: Result<usize, ConfigError>)
        ensures
            match self.default_run {
                Option::Some(k) => r == Ok::<usize, ConfigError>(k),
                Option::None => match r {
                    Err(ConfigError::SeveralProjects { available }) => available@ == names_line(
                        self.projects@,
                    ),
                    _ => false,
                },
            },
    {
        match self.default_run {
            Option::Some(k) => Ok(k),
            Option::None => Err(ConfigError::SeveralProjects { available: names(&self.projects) }),
        }
    }
}

} // verus!
