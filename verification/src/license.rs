//! The list of licenses that is bundled with the program: the text of the
//! report, from what is known of each package.

use crate::text::{chars_of, push_range, string_of};
use vstd::prelude::*;
use vstd::string::StringExecFns;

verus! {

/// A license file that a package bundles: its name and what it holds.
#[derive(Debug, PartialEq, Eq)]
pub struct LicenseFile {
    pub name: String,
    pub text: String,
}

/// What the report says of one package.
#[derive(Debug, PartialEq, Eq)]
pub struct PackageLicenseInfo {
    pub id: String,
    pub name: String,
    pub repository: String,
    pub license_id: String,
    pub license_files: Vec<LicenseFile>,
}

/// The mathematical value of a `PackageLicenseInfo`: its texts, and the
/// names and texts of its license files.
pub struct PackageView {
    pub id: Seq<char>,
    pub name: Seq<char>,
    pub repository: Seq<char>,
    pub license_id: Seq<char>,
    pub license_files: Seq<(Seq<char>, Seq<char>)>,
}

impl View for LicenseFile {
    type V = (Seq<char>, Seq<char>);

    open spec fn view(&self) -> (Seq<char>, Seq<char>) {
        (self.name@, self.text@)
    }
}

impl View for PackageLicenseInfo {
    type V = PackageView;

    open spec fn view(&self) -> PackageView {
        PackageView {
            id: self.id@,
            name: self.name@,
            repository: self.repository@,
            license_id: self.license_id@,
            license_files: self.license_files@.map_values(|file: LicenseFile| file@),
        }
    }
}

/// The values of a sequence of packages.
pub open spec fn package_views(packages: Seq<PackageLicenseInfo>) -> Seq<PackageView> {
    packages.map_values(|package: PackageLicenseInfo| package@)
}

/// A line of `n` dashes.
pub open spec fn dashes(n: nat) -> Seq<char> {
    Seq::new(n, |i: int| '-')
}

/// What the report says of the license files: of each its name between
/// `====` and its text, or that there are none.
pub open spec fn files_text(files: Seq<(Seq<char>, Seq<char>)>) -> Seq<char>
    decreases files.len(),
{
    if files.len() == 0 {
        Seq::empty()
    } else {
        files_text(files.drop_last()) + "==== "@ + files.last().0 + " ====\n"@ + files.last().1
            + "\n"@
    }
}

/// The list of the license files of a package, which is a `kind`.
pub open spec fn license_list(kind: Seq<char>, files: Seq<(Seq<char>, Seq<char>)>) -> Seq<char> {
    if files.len() == 0 {
        "This "@ + kind + " does not have any bundled license files.\n\n"@
    } else {
        "Here's list of license file bundled in this "@ + kind + ":\n\n"@ + files_text(files)
    }
}

/// The head of the report: the name of the software, its license and where
/// it is hosted, and its license files.
pub open spec fn head_text(name: Seq<char>, root: PackageView) -> Seq<char> {
    "This software "@ + name + " is published under license of "@ + root.license_id + "\n"@
        + "and is hosted on "@ + root.repository + ".\n\n"@ + license_list(
        "software"@,
        root.license_files,
    )
}

/// The part of the report on one library. The lines of dashes are as long
/// as the line between them, counted in bytes.
pub open spec fn library_text(package: PackageView, name_bytes: nat) -> Seq<char> {
    dashes(name_bytes + 10) + "\n---- "@ + package.name + " ----\n"@ + dashes(name_bytes + 10)
        + "\n\nThis software uses "@ + package.name + " which is released under license of "@
        + package.license_id + "\nwhich is hosted on "@ + package.repository + ".\n\n"@
        + license_list("library"@, package.license_files)
}

/// The number of bytes of a text in UTF-8.
pub open spec fn byte_length(text: Seq<char>) -> nat {
    vstd::utf8::encode_utf8(text).len()
}

/// The parts of the report on the libraries, in order.
pub open spec fn libraries_text(packages: Seq<PackageView>) -> Seq<char>
    decreases packages.len(),
{
    if packages.len() == 0 {
        Seq::empty()
    } else {
        libraries_text(packages.drop_last()) + library_text(
            packages.last(),
            byte_length(packages.last().name),
        )
    }
}

/// The report: the head, then the libraries.
pub open spec fn report_text(name: Seq<char>, root: PackageView, packages: Seq<PackageView>) -> Seq<
    char,
> {
    head_text(name, root) + libraries_text(packages)
}

fn push_text(out: &mut Vec<char>, text: &str)
    ensures
        final(out)@ == old(out)@ + text@,
{
    let chars = chars_of(text);
    push_range(out, &chars, 0, chars.len());
    assert(chars@.subrange(0, chars.len() as int) == chars@);
}

fn push_dashes(out: &mut Vec<char>, n: usize)
    ensures
        final(out)@ == old(out)@ + dashes(n as nat),
{
    let mut i: usize = 0;
    while i < n
        invariant
            i <= n,
            out@ == old(out)@ + dashes(i as nat),
        decreases n - i,
    {
        out.push('-');
        assert(dashes((i + 1) as nat) =~= dashes(i as nat).push('-'));
        i += 1;
    }
}

/// Appends to `out` the list of the license files of a package.
pub fn print_license_list(out: &mut Vec<char>, kind: &str, package: &PackageLicenseInfo)
    ensures
        final(out)@ == old(out)@ + license_list(kind@, package@.license_files),
{
    let files = &package.license_files;
    let ghost views = package@.license_files;
    if files.len() == 0 {
        push_text(out, "This ");
        push_text(out, kind);
        push_text(out, " does not have any bundled license files.\n\n");
    } else {
        push_text(out, "Here's list of license file bundled in this ");
        push_text(out, kind);
        push_text(out, ":\n\n");
        let ghost start = out@;
        let mut i: usize = 0;
        while i < files.len()
            invariant
                i <= files.len(),
                files == &package.license_files,
                views == package@.license_files,
                out@ == start + files_text(views.take(i as int)),
            decreases files.len() - i,
        {
            proof {
                assert(views.take(i + 1).drop_last() == views.take(i as int));
                assert(views.take(i + 1).last() == files@[i as int]@);
            }
            push_text(out, "==== ");
            push_text(out, files[i].name.as_str());
            push_text(out, " ====\n");
            push_text(out, files[i].text.as_str());
            push_text(out, "\n");
            i += 1;
        }
        assert(views.take(files.len() as int) == views);
    }
}

fn push_library(out: &mut Vec<char>, package: &PackageLicenseInfo)
    ensures
        final(out)@ == old(out)@ + library_text(package@, byte_length(package@.name)),
{
    let width = package.name.as_str().as_bytes().len();
    push_dashes(out, 10);
    push_dashes(out, width);
    assert(dashes(10) + dashes(width as nat) =~= dashes(byte_length(package@.name) + 10));
    push_text(out, "\n---- ");
    push_text(out, package.name.as_str());
    push_text(out, " ----\n");
    push_dashes(out, 10);
    push_dashes(out, width);
    push_text(out, "\n\nThis software uses ");
    push_text(out, package.name.as_str());
    push_text(out, " which is released under license of ");
    push_text(out, package.license_id.as_str());
    push_text(out, "\nwhich is hosted on ");
    push_text(out, package.repository.as_str());
    push_text(out, ".\n\n");
    print_license_list(out, "library", package);
}

/// Appends to `out` the report on a software called `name`, whose own
/// package is `root` and whose libraries are `packages`, in that order.
pub fn generate(
    out: &mut Vec<char>,
    name: &str,
    root: &PackageLicenseInfo,
    packages: &Vec<PackageLicenseInfo>,
)
    ensures
        final(out)@ == old(out)@ + report_text(name@, root@, package_views(packages@)),
{
    push_text(out, "This software ");
    push_text(out, name);
    push_text(out, " is published under license of ");
    push_text(out, root.license_id.as_str());
    push_text(out, "\n");
    push_text(out, "and is hosted on ");
    push_text(out, root.repository.as_str());
    push_text(out, ".\n\n");
    print_license_list(out, "software", root);
    let ghost start = out@;
    let ghost views = package_views(packages@);
    assert(start == old(out)@ + head_text(name@, root@));
    let mut i: usize = 0;
    while i < packages.len()
        invariant
            i <= packages.len(),
            views == package_views(packages@),
            out@ == start + libraries_text(views.take(i as int)),
        decreases packages.len() - i,
    {
        proof {
            assert(views.take(i + 1).drop_last() == views.take(i as int));
            assert(views.take(i + 1).last() == packages@[i as int]@);
        }
        push_library(out, &packages[i]);
        i += 1;
    }
    assert(views.take(packages.len() as int) == views);
}

/// Builds the report for a software under a chosen name.
#[derive(Debug)]
pub struct Builder {
    name: Option<String>,
}

impl View for Builder {
    type V = Option<Seq<char>>;

    closed spec fn view(&self) -> Option<Seq<char>> {
        match self.name {
            Some(name) => Some(name@),
            None => None,
        }
    }
}

/// The name that the report gives the software: the chosen one, and the
/// name of the package where none was chosen.
pub open spec fn shown_name(chosen: Option<Seq<char>>, package_name: Seq<char>) -> Seq<char> {
    match chosen {
        Some(name) => name,
        None => package_name,
    }
}

impl Builder {
    /// A builder with no name chosen.
    pub fn new() -> (builder: Builder)
        ensures
            builder@.is_none(),
    {
        Builder { name: None }
    }

    /// Chooses the name of the software.
    pub fn name(&mut self, name: String) -> (builder: &mut Builder)
        ensures
            builder@ == Some(name@),
            *final(self) == *final(builder),
    {
        self.name = Some(name);
        self
    }

    /// The name that the report gives the software.
    pub fn get_name(&self, package_name: &str) -> (name: String)
        ensures
            name@ == shown_name(self@, package_name@),
    {
        match &self.name {
            Some(name) => name.clone(),
            None => package_name.to_owned(),
        }
    }

    /// Appends the report to `out`, as UTF-8.
    pub fn generate_to_io(
        &self,
        out: &mut Vec<u8>,
        package_name: &str,
        root: &PackageLicenseInfo,
        packages: &Vec<PackageLicenseInfo>,
    )
        ensures
            final(out)@ == old(out)@ + vstd::utf8::encode_utf8(
                report_text(shown_name(self@, package_name@), root@, package_views(packages@)),
            ),
    {
        let text = self.generate_to_string(package_name, root, packages);
        let bytes = text.as_str().as_bytes();
        let mut i: usize = 0;
        while i < bytes.len()
            invariant
                i <= bytes.len(),
                out@ == old(out)@ + bytes@.take(i as int),
            decreases bytes.len() - i,
        {
            out.push(bytes[i]);
            assert(bytes@.take(i + 1) == bytes@.take(i as int).push(bytes@[i as int]));
            i += 1;
        }
        assert(bytes@.take(bytes.len() as int) == bytes@);
    }

    /// Appends the report to `out`.
    pub fn generate_to_fmt(
        &self,
        out: &mut String,
        package_name: &str,
        root: &PackageLicenseInfo,
        packages: &Vec<PackageLicenseInfo>,
    )
        ensures
            final(out)@ == old(out)@ + report_text(
                shown_name(self@, package_name@),
                root@,
                package_views(packages@),
            ),
    {
        let text = self.generate_to_string(package_name, root, packages);
        out.append(text.as_str());
    }

    /// The report as a string.
    pub fn generate_to_string(
        &self,
        package_name: &str,
        root: &PackageLicenseInfo,
        packages: &Vec<PackageLicenseInfo>,
    ) -> (text: String)
        ensures
            text@ == report_text(shown_name(self@, package_name@), root@, package_views(packages@)),
    {
        let name = self.get_name(package_name);
        let mut out: Vec<char> = Vec::new();
        generate(&mut out, name.as_str(), root, packages);
        string_of(&out)
    }
}

} // verus!
