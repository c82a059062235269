//! A software package description and the builder that assembles one.

use vstd::prelude::*;
use vstd::string::StringExecFns;

verus! {

/// The language a package is written in.
#[derive(Debug)]
pub enum Language {
    Rust,
    Java,
    Perl,
}

/// A named dependency on another package, with a version requirement.
#[derive(Debug, Clone)]
pub struct Dependency {
    pub name: String,
    pub version_expression: String,
}

/// A representation of a software package.
#[derive(Debug)]
pub struct Package {
    pub name: String,
    pub version: String,
    pub authors: Vec<String>,
    pub dependencies: Vec<Dependency>,
    pub languange: Option<Language>,
}

impl Package {
    /// Return a representation of this package as a dependency, for use in
    /// building other packages.
    pub fn as_dependencies(&self) -> (dep: Dependency)
        ensures
            dep.name@ == self.name@,
            dep.version_expression@ == self.version@,
    {
        Dependency { name: self.name.clone(), version_expression: self.version.clone() }
    }
}

/// A builder for a `Package`. Use `build()` to create the `Package` itself.
pub struct PackageBuilder(pub Package);

impl PackageBuilder {
    /// Start a package with the given name, an empty author and dependency
    /// list, no language, and a default version.
    pub fn new(name: &str) -> (builder: PackageBuilder)
        ensures
            builder.0.name@ == name@,
            builder.0.version@ == "0.1"@,
            builder.0.authors@ == Seq::<String>::empty(),
            builder.0.dependencies@ == Seq::<Dependency>::empty(),
            builder.0.languange is None,
    {
        PackageBuilder(
            Package {
                name: String::from_str(name),
                version: String::from_str("0.1"),
                authors: Vec::new(),
                dependencies: Vec::new(),
                languange: None,
            },
        )
    }

    /// Set the package version.
    pub fn version(self, version: &str) -> (builder: PackageBuilder)
        ensures
            builder.0.version@ == version@,
            builder.0.name == self.0.name,
            builder.0.authors == self.0.authors,
            builder.0.dependencies == self.0.dependencies,
            builder.0.languange == self.0.languange,
    {
        let mut builder = self;
        builder.0.version = String::from_str(version);
        builder
    }

    /// Set the package authors.
    pub fn authors(self, authors: Vec<String>) -> (builder: PackageBuilder)
        ensures
            builder.0.authors == authors,
            builder.0.name == self.0.name,
            builder.0.version == self.0.version,
            builder.0.dependencies == self.0.dependencies,
            builder.0.languange == self.0.languange,
    {
        let mut builder = self;
        builder.0.authors = authors;
        builder
    }

    /// Add an additional dependency.
    pub fn dependency(self, depedency: Dependency) -> (builder: PackageBuilder)
        ensures
            builder.0.dependencies@ == self.0.dependencies@.push(depedency),
            builder.0.name == self.0.name,
            builder.0.version == self.0.version,
            builder.0.authors == self.0.authors,
            builder.0.languange == self.0.languange,
    {
        let mut builder = self;
        builder.0.dependencies.push(depedency);
        builder
    }

    /// Set the language. If not set, language is None.
    pub fn languange(self, lang: Language) -> (builder: PackageBuilder)
        ensures
            builder.0.languange == Some(lang),
            builder.0.name == self.0.name,
            builder.0.version == self.0.version,
            builder.0.authors == self.0.authors,
            builder.0.dependencies == self.0.dependencies,
    {
        let mut builder = self;
        builder.0.languange = Some(lang);
        builder
    }

    /// Finish the package.
    pub fn build(self) -> (package: Package)
        ensures
            package == self.0,
    {
        self.0
    }
}

} // verus!
