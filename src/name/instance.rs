use vstd::prelude::*;

verus! {

/// An instance layer.
#[derive(Debug, Clone, Copy, PartialEq, Eq, Structural)]
pub enum Layer {
    KhronosValidation,
    LunargMonitor,
    LunargGfxreconstruct,
}

impl Layer {
    /// The name the driver knows it by.
    pub open spec fn spec_name(self) -> Seq<char> {
        match self {
            Layer::KhronosValidation => "VK_LAYER_KHRONOS_validation"@,
            Layer::LunargMonitor => "VK_LAYER_LUNARG_monitor"@,
            Layer::LunargGfxreconstruct => "VK_LAYER_LUNARG_gfxreconstruct"@,
        }
    }

    /// The variant whose name is `s`, if there is one.
    pub open spec fn named(s: Seq<char>) -> Option<Self> {
        if s == "VK_LAYER_KHRONOS_validation"@ {
            Some(Layer::KhronosValidation)
        } else if s == "VK_LAYER_LUNARG_monitor"@ {
            Some(Layer::LunargMonitor)
        } else if s == "VK_LAYER_LUNARG_gfxreconstruct"@ {
            Some(Layer::LunargGfxreconstruct)
        } else {
            None
        }
    }

    /// The known variants among `names`, in their order.
    pub open spec fn known_in(names: Seq<String>) -> Seq<Self>
        decreases names.len(),
    {
        if names.len() == 0 {
            seq![]
        } else {
            let rest = Self::known_in(names.drop_last());
            match Self::named(names.last()@) {
                Some(v) => rest.push(v),
                None => rest,
            }
        }
    }

    pub fn as_ref(&self) -> (r: &'static str)
        ensures
            r@ == self.spec_name(),
    {
        match self {
            Layer::KhronosValidation => "VK_LAYER_KHRONOS_validation",
            Layer::LunargMonitor => "VK_LAYER_LUNARG_monitor",
            Layer::LunargGfxreconstruct => "VK_LAYER_LUNARG_gfxreconstruct",
        }
    }

    /// The variant named `name`, if there is one.
    pub fn from_name(name: &str) -> (r: Option<Self>)
        ensures
            r == Self::named(name@),
            r matches Some(v) ==> v.spec_name() == name@,
            r is None ==> forall|v: Layer| v.spec_name() != name@,
    {
        let owned = name.to_owned();
        if owned == "VK_LAYER_KHRONOS_validation".to_owned() {
            return Some(Layer::KhronosValidation);
        }
        if owned == "VK_LAYER_LUNARG_monitor".to_owned() {
            return Some(Layer::LunargMonitor);
        }
        if owned == "VK_LAYER_LUNARG_gfxreconstruct".to_owned() {
            return Some(Layer::LunargGfxreconstruct);
        }
        None
    }

    /// The known variants among the names that a driver reports, in their
    /// order; unknown names are skipped.
    pub fn known(names: &[String]) -> (r: Vec<Self>)
        ensures
            r@ == Self::known_in(names@),
    {
        let mut r: Vec<Self> = Vec::new();
        let mut i: usize = 0;
        while i < names.len()
            invariant
                i <= names@.len(),
                r@ == Self::known_in(names@.subrange(0, i as int)),
            decreases names@.len() - i,
        {
            let found = Self::from_name(names[i].as_str());
            proof {
                assert(names@.subrange(0, i + 1).drop_last() =~= names@.subrange(0, i as int));
            }
            match found {
                Some(v) => r.push(v),
                None => {},
            }
            i = i + 1;
        }
        assert(names@.subrange(0, names@.len() as int) =~= names@);
        r
    }
}

/// An instance extension.
#[derive(Debug, Clone, Copy, PartialEq, Eq, Structural)]
pub enum Extension {
    ExtDebugUtils,
    KhrWin32Surface,
    KhrSurface,
    KhrXlibSurface,
    KhrXcbSurface,
    KhrDisplay,
}

impl Extension {
    /// The name the driver knows it by.
    pub open spec fn spec_name(self) -> Seq<char> {
        match self {
            Extension::ExtDebugUtils => "VK_EXT_debug_utils"@,
            Extension::KhrWin32Surface => "VK_KHR_win32_surface"@,
            Extension::KhrSurface => "VK_KHR_surface"@,
            Extension::KhrXlibSurface => "VK_KHR_xlib_surface"@,
            Extension::KhrXcbSurface => "VK_KHR_xcb_surface"@,
            Extension::KhrDisplay => "VK_KHR_display"@,
        }
    }

    /// The variant whose name is `s`, if there is one.
    pub open spec fn named(s: Seq<char>) -> Option<Self> {
        if s == "VK_EXT_debug_utils"@ {
            Some(Extension::ExtDebugUtils)
        } else if s == "VK_KHR_win32_surface"@ {
            Some(Extension::KhrWin32Surface)
        } else if s == "VK_KHR_surface"@ {
            Some(Extension::KhrSurface)
        } else if s == "VK_KHR_xlib_surface"@ {
            Some(Extension::KhrXlibSurface)
        } else if s == "VK_KHR_xcb_surface"@ {
            Some(Extension::KhrXcbSurface)
        } else if s == "VK_KHR_display"@ {
            Some(Extension::KhrDisplay)
        } else {
            None
        }
    }

    /// The known variants among `names`, in their order.
    pub open spec fn known_in(names: Seq<String>) -> Seq<Self>
        decreases names.len(),
    {
        if names.len() == 0 {
            seq![]
        } else {
            let rest = Self::known_in(names.drop_last());
            match Self::named(names.last()@) {
                Some(v) => rest.push(v),
                None => rest,
            }
        }
    }

    pub fn as_ref(&self) -> (r: &'static str)
        ensures
            r@ == self.spec_name(),
    {
        match self {
            Extension::ExtDebugUtils => "VK_EXT_debug_utils",
            Extension::KhrWin32Surface => "VK_KHR_win32_surface",
            Extension::KhrSurface => "VK_KHR_surface",
            Extension::KhrXlibSurface => "VK_KHR_xlib_surface",
            Extension::KhrXcbSurface => "VK_KHR_xcb_surface",
            Extension::KhrDisplay => "VK_KHR_display",
        }
    }

    /// The variant named `name`, if there is one.
    pub fn from_name(name: &str) -> (r: Option<Self>)
        ensures
            r == Self::named(name@),
            r matches Some(v) ==> v.spec_name() == name@,
            r is None ==> forall|v: Extension| v.spec_name() != name@,
    {
        let owned = name.to_owned();
        if owned == "VK_EXT_debug_utils".to_owned() {
            return Some(Extension::ExtDebugUtils);
        }
        if owned == "VK_KHR_win32_surface".to_owned() {
            return Some(Extension::KhrWin32Surface);
        }
        if owned == "VK_KHR_surface".to_owned() {
            return Some(Extension::KhrSurface);
        }
        if owned == "VK_KHR_xlib_surface".to_owned() {
            return Some(Extension::KhrXlibSurface);
        }
        if owned == "VK_KHR_xcb_surface".to_owned() {
            return Some(Extension::KhrXcbSurface);
        }
        if owned == "VK_KHR_display".to_owned() {
            return Some(Extension::KhrDisplay);
        }
        None
    }

    /// The known variants among the names that a driver reports, in their
    /// order; unknown names are skipped.
    pub fn known(names: &[String]) -> (r: Vec<Self>)
        ensures
            r@ == Self::known_in(names@),
    {
        let mut r: Vec<Self> = Vec::new();
        let mut i: usize = 0;
        while i < names.len()
            invariant
                i <= names@.len(),
                r@ == Self::known_in(names@.subrange(0, i as int)),
            decreases names@.len() - i,
        {
            let found = Self::from_name(names[i].as_str());
            proof {
                assert(names@.subrange(0, i + 1).drop_last() =~= names@.subrange(0, i as int));
            }
            match found {
                Some(v) => r.push(v),
                None => {},
            }
            i = i + 1;
        }
        assert(names@.subrange(0, names@.len() as int) =~= names@);
        r
    }
}

} // verus!
