//! What the name of a distribution file says about it: a source distribution
//! with its archive extension, or a wheel with its compatibility tags.

use crate::text::{join, joined, texts};
use vstd::prelude::*;
use vstd::string::StringExecFns;

verus! {

/// The archive formats a source distribution can come in.
#[derive(Clone, Copy, Debug, PartialEq, Eq, Structural)]
pub enum SourceDistExtension {
    Zip,
    TarGz,
    TarBz2,
    TarXz,
    TarZst,
}

impl SourceDistExtension {
    /// The extension as it stands at the end of a file name, without the leading dot.
    pub open spec fn text(self) -> Seq<char> {
        match self {
            SourceDistExtension::Zip => "zip"@,
            SourceDistExtension::TarGz => "tar.gz"@,
            SourceDistExtension::TarBz2 => "tar.bz2"@,
            SourceDistExtension::TarXz => "tar.xz"@,
            SourceDistExtension::TarZst => "tar.zst"@,
        }
    }

    /// The extension as it stands at the end of a file name, without the leading dot.
    pub fn as_str(self) -> (text: &'static str)
        ensures
            text@ == self.text(),
    {
        match self {
            SourceDistExtension::Zip => "zip",
            SourceDistExtension::TarGz => "tar.gz",
            SourceDistExtension::TarBz2 => "tar.bz2",
            SourceDistExtension::TarXz => "tar.xz",
            SourceDistExtension::TarZst => "tar.zst",
        }
    }
}

/// The name of a source distribution: `{name}-{version}.{extension}`.
#[derive(Clone, Debug)]
pub struct SourceDistFilename {
    /// The project name as file names carry it.
    pub name: String,
    pub version: String,
    pub extension: SourceDistExtension,
}

/// The parts of a source distribution's name as plain text.
pub struct SourceDistFilenameView {
    pub name: Seq<char>,
    pub version: Seq<char>,
    pub extension: SourceDistExtension,
}

impl View for SourceDistFilename {
    type V = SourceDistFilenameView;

    open spec fn view(&self) -> SourceDistFilenameView {
        SourceDistFilenameView {
            name: self.name@,
            version: self.version@,
            extension: self.extension,
        }
    }
}

impl SourceDistFilenameView {
    /// The file name these parts spell.
    pub open spec fn text(self) -> Seq<char> {
        self.name + "-"@ + self.version + "."@ + self.extension.text()
    }
}

impl SourceDistFilename {
    /// A copy with the same parts.
    pub fn duplicate(&self) -> (copy: SourceDistFilename)
        ensures
            copy == *self,
    {
        SourceDistFilename {
            name: self.name.clone(),
            version: self.version.clone(),
            extension: self.extension,
        }
    }

    /// The file name: name, version and extension.
    pub fn to_string(&self) -> (text: String)
        ensures
            text@ == self@.text(),
    {
        let mut text = self.name.clone();
        text.append("-");
        text.append(self.version.as_str());
        text.append(".");
        text.append(self.extension.as_str());
        text
    }
}

/// The name of a wheel: `{name}-{version}-{python}-{abi}-{platform}.whl`, each
/// of the three tags a dot-separated list.
#[derive(Clone, Debug)]
pub struct WheelFilename {
    /// The project name as file names carry it.
    pub name: String,
    pub version: String,
    pub python_tag: Vec<String>,
    pub abi_tag: Vec<String>,
    pub platform_tag: Vec<String>,
}

/// The parts of a wheel's name as plain text.
pub struct WheelFilenameView {
    pub name: Seq<char>,
    pub version: Seq<char>,
    pub python_tag: Seq<Seq<char>>,
    pub abi_tag: Seq<Seq<char>>,
    pub platform_tag: Seq<Seq<char>>,
}

impl View for WheelFilename {
    type V = WheelFilenameView;

    open spec fn view(&self) -> WheelFilenameView {
        WheelFilenameView {
            name: self.name@,
            version: self.version@,
            python_tag: texts(self.python_tag@),
            abi_tag: texts(self.abi_tag@),
            platform_tag: texts(self.platform_tag@),
        }
    }
}

impl WheelFilenameView {
    /// The Python tags joined by dots, as the index wants them.
    pub open spec fn python_text(self) -> Seq<char> {
        joined(self.python_tag, "."@)
    }

    /// The file name these parts spell.
    pub open spec fn text(self) -> Seq<char> {
        self.name + "-"@ + self.version + "-"@ + joined(self.python_tag, "."@) + "-"@ + joined(
            self.abi_tag,
            "."@,
        ) + "-"@ + joined(self.platform_tag, "."@) + ".whl"@
    }
}

impl WheelFilename {
    /// The file name: name, version, the three tags and `.whl`.
    pub fn to_string(&self) -> (text: String)
        ensures
            text@ == self@.text(),
    {
        let mut text = self.name.clone();
        text.append("-");
        text.append(self.version.as_str());
        text.append("-");
        let python = join(&self.python_tag, ".");
        text.append(python.as_str());
        text.append("-");
        let abi = join(&self.abi_tag, ".");
        text.append(abi.as_str());
        text.append("-");
        let platform = join(&self.platform_tag, ".");
        text.append(platform.as_str());
        text.append(".whl");
        text
    }
}

/// A distribution file's name, classified.
#[derive(Clone, Debug)]
pub enum DistFilename {
    SourceDistFilename(SourceDistFilename),
    WheelFilename(WheelFilename),
}

/// A classified name as plain text.
pub enum DistFilenameView {
    SourceDistFilename(SourceDistFilenameView),
    WheelFilename(WheelFilenameView),
}

impl View for DistFilename {
    type V = DistFilenameView;

    open spec fn view(&self) -> DistFilenameView {
        match self {
            DistFilename::SourceDistFilename(sdist) => DistFilenameView::SourceDistFilename(sdist@),
            DistFilename::WheelFilename(wheel) => DistFilenameView::WheelFilename(wheel@),
        }
    }
}

impl DistFilenameView {
    /// The file type the index knows the kind of file by.
    pub open spec fn filetype(self) -> Seq<char> {
        match self {
            DistFilenameView::SourceDistFilename(_) => "sdist"@,
            DistFilenameView::WheelFilename(_) => "bdist_wheel"@,
        }
    }

    /// The interpreter the file is for: a wheel's Python tags joined by dots,
    /// `source` for a source distribution.
    pub open spec fn pyversion(self) -> Seq<char> {
        match self {
            DistFilenameView::SourceDistFilename(_) => "source"@,
            DistFilenameView::WheelFilename(wheel) => wheel.python_text(),
        }
    }

    /// The file name these parts spell.
    pub open spec fn text(self) -> Seq<char> {
        match self {
            DistFilenameView::SourceDistFilename(sdist) => sdist.text(),
            DistFilenameView::WheelFilename(wheel) => wheel.text(),
        }
    }
}

impl DistFilename {
    /// `sdist` for a source distribution, `bdist_wheel` for a wheel.
    pub fn filetype(&self) -> (kind: &'static str)
        ensures
            kind@ == self@.filetype(),
    {
        match self {
            DistFilename::SourceDistFilename(_) => "sdist",
            DistFilename::WheelFilename(_) => "bdist_wheel",
        }
    }

    /// A wheel's Python tags joined by dots, `source` for a source distribution.
    pub fn pyversion(&self) -> (tag: String)
        ensures
            tag@ == self@.pyversion(),
    {
        match self {
            DistFilename::SourceDistFilename(_) => String::from_str("source"),
            DistFilename::WheelFilename(wheel) => join(&wheel.python_tag, "."),
        }
    }

    /// The file name.
    pub fn to_string(&self) -> (text: String)
        ensures
            text@ == self@.text(),
    {
        match self {
            DistFilename::SourceDistFilename(sdist) => sdist.to_string(),
            DistFilename::WheelFilename(wheel) => wheel.to_string(),
        }
    }
}

} // verus!
