//! Mass storage device function configuration.

use vstd::prelude::*;

use crate::errors::GadgetError;
use crate::props::{push_prop_str, spec_prop_str, spec_props_view, Prop};
use crate::text::{spec_decimal, u64_to_decimal};

verus! {

/// Whether a path string is absolute: its first byte is a slash.
pub open spec fn spec_is_absolute(s: Seq<char>) -> bool {
    vstd::utf8::encode_utf8(s).len() > 0 && vstd::utf8::encode_utf8(s)[0] == 47
}

/// Logical unit (LUN) of a mass storage device.
#[derive(Debug, Clone, PartialEq, Eq)]
pub struct Lun {
    /// Whether access to the LUN shall be read-only.
    ///
    /// This is implied if CD-ROM emulation is enabled, as well as when
    /// the backing file cannot be opened for writing.
    pub read_only: bool,
    /// Whether the LUN shall be reported as being a CD-ROM.
    pub cdrom: bool,
    /// Whether the FUA flag in SCSI WRITE(10,12) is ignored.
    pub no_fua: bool,
    /// Whether the LUN shall be indicated as being removable.
    pub removable: bool,
    /// The path of the backing file.
    ///
    /// Required if the LUN is not marked as removable; [`Lun::set_file`]
    /// checks that the path is absolute.
    pub file: Option<String>,
    /// Inquiry string.
    pub inquiry_string: String,
}

impl Lun {
    /// The path of the backing file, if one is set.
    pub open spec fn spec_file(&self) -> Option<Seq<char>> {
        match self.file {
            Some(f) => Some(f@),
            None => None,
        }
    }

    /// Create a new LUN backed by the specified file.
    ///
    /// Fails exactly when the path is not absolute.
    pub fn new(file: &str) -> (r: Result<Self, GadgetError>)
        ensures
            match r {
                Ok(lun) => {
                    &&& spec_is_absolute(file@)
                    &&& lun.spec_file() == Some(file@)
                    &&& !lun.read_only
                    &&& !lun.cdrom
                    &&& !lun.no_fua
                    &&& lun.removable
                    &&& lun.inquiry_string@ == Seq::<char>::empty()
                },
                Err(e) => !spec_is_absolute(file@) && e == GadgetError::LunFileNotAbsolute,
            },
    {
        let mut this = Self::empty();
        match this.set_file(Some(file)) {
            Ok(()) => Ok(this),
            Err(e) => Err(e),
        }
    }

    /// Creates a new LUN without a medium.
    pub fn empty() -> (r: Self)
        ensures
            !r.read_only,
            !r.cdrom,
            !r.no_fua,
            r.removable,
            r.spec_file() is None,
            r.inquiry_string@ == Seq::<char>::empty(),
    {
        Self {
            read_only: false,
            cdrom: false,
            no_fua: false,
            removable: true,
            file: None,
            inquiry_string: String::new(),
        }
    }

    /// Set the path of the backing file.
    ///
    /// Fails exactly when the given path is not absolute; the LUN is
    /// then unchanged.
    pub fn set_file(&mut self, file: Option<&str>) -> (r: Result<(), GadgetError>)
        ensures
            match r {
                Ok(()) => {
                    &&& final(self).spec_file() == (match file {
                        Some(f) => Some(f@),
                        None => None::<Seq<char>>,
                    })
                    &&& (file is Some ==> spec_is_absolute(file->Some_0@))
                    &&& final(self).read_only == old(self).read_only
                    &&& final(self).cdrom == old(self).cdrom
                    &&& final(self).no_fua == old(self).no_fua
                    &&& final(self).removable == old(self).removable
                    &&& final(self).inquiry_string == old(self).inquiry_string
                },
                Err(e) => {
                    &&& file is Some && !spec_is_absolute(file->Some_0@)
                    &&& e == GadgetError::LunFileNotAbsolute
                    &&& *final(self) == *old(self)
                },
            },
    {
        match file {
            Some(f) => {
                let bytes = f.as_bytes();
                if bytes.len() == 0 || bytes[0] != 47 {
                    return Err(GadgetError::LunFileNotAbsolute);
                }
                self.file = Some(f.to_owned());
            },
            None => {
                self.file = None;
            },
        }
        Ok(())
    }

    /// The configuration directory name of the LUN at the given index.
    pub fn dir_name(idx: usize) -> (r: String)
        ensures
            r@ == ("lun.")@ + spec_decimal(idx as int),
    {
        let mut s = String::from_str("lun.");
        s.append(u64_to_decimal(idx as u64).as_str());
        s
    }
}

impl Default for Lun {
    /// A removable LUN without a medium.
    fn default() -> (r: Self)
        ensures
            !r.read_only,
            !r.cdrom,
            !r.no_fua,
            r.removable,
            r.spec_file() is None,
            r.inquiry_string@ == Seq::<char>::empty(),
    {
        Lun::empty()
    }
}

/// Builder for a USB mass storage device function.
#[derive(Debug, Clone, PartialEq, Eq)]
pub struct MsdBuilder {
    /// Permit the function to halt bulk endpoints.
    ///
    /// Disabled on some USB devices known not to work correctly.
    pub stall: Option<bool>,
    /// Logical units.
    pub luns: Vec<Lun>,
}

impl MsdBuilder {
    /// A builder with no logical units.
    pub fn new() -> (r: MsdBuilder)
        ensures
            r.stall is None,
            r.luns@.len() == 0,
    {
        MsdBuilder { stall: None, luns: Vec::new() }
    }

    /// Adds a LUN.
    pub fn add_lun(&mut self, lun: Lun)
        ensures
            final(self).luns@ == old(self).luns@.push(lun),
            final(self).stall == old(self).stall,
    {
        self.luns.push(lun);
    }

    /// Adds a LUN.
    #[must_use]
    pub fn with_lun(self, lun: Lun) -> (r: Self)
        ensures
            r.luns@ == self.luns@.push(lun),
            r.stall == self.stall,
    {
        let mut this = self;
        this.add_lun(lun);
        this
    }
}

/// The truth-value property text: `1` or `0`.
pub open spec fn spec_bool_text(v: bool) -> Seq<char> {
    if v {
        spec_decimal(1)
    } else {
        spec_decimal(0)
    }
}

/// The properties one LUN writes during registration, relative to its
/// configuration directory, in order.
pub open spec fn spec_lun_props(lun: Lun) -> Seq<(Seq<char>, Seq<u8>)> {
    let ps = Seq::empty().push(spec_prop_str(("ro")@, spec_bool_text(lun.read_only))).push(
        spec_prop_str(("cdrom")@, spec_bool_text(lun.cdrom)),
    ).push(spec_prop_str(("nofua")@, spec_bool_text(lun.no_fua))).push(
        spec_prop_str(("removable")@, spec_bool_text(lun.removable)),
    ).push(spec_prop_str(("inquiry_string")@, lun.inquiry_string@));
    match lun.spec_file() {
        Some(f) => ps.push(spec_prop_str(("file")@, f)),
        None => ps,
    }
}

impl Lun {
    /// The properties this LUN writes during registration, relative to
    /// its configuration directory, in order.
    pub fn properties(&self) -> (r: Vec<Prop>)
        ensures
            spec_props_view(r@) == spec_lun_props(*self),
    {
        let mut ps: Vec<Prop> = Vec::new();
        proof {
            assert(spec_props_view(ps@) =~= Seq::<(Seq<char>, Seq<u8>)>::empty());
        }
        let one = u64_to_decimal(1);
        let zero = u64_to_decimal(0);
        push_prop_str(&mut ps, "ro", if self.read_only {
            one.as_str()
        } else {
            zero.as_str()
        });
        push_prop_str(&mut ps, "cdrom", if self.cdrom {
            one.as_str()
        } else {
            zero.as_str()
        });
        push_prop_str(&mut ps, "nofua", if self.no_fua {
            one.as_str()
        } else {
            zero.as_str()
        });
        push_prop_str(&mut ps, "removable", if self.removable {
            one.as_str()
        } else {
            zero.as_str()
        });
        push_prop_str(&mut ps, "inquiry_string", self.inquiry_string.as_str());
        match &self.file {
            Some(f) => {
                push_prop_str(&mut ps, "file", f.as_str());
            },
            None => {},
        }
        ps
    }
}

} // verus!
