//! The Chrome PDF viewer persona of `navigator.plugins` and
//! `navigator.mimeTypes`: five PDF viewer plugins sharing two PDF MIME types,
//! exposed only while the PDF viewer preference is on.

use vstd::prelude::*;
use crate::text::str_eq;

verus! {

/// Static description of a MIME type a plugin handles.
#[derive(Clone, Copy)]
pub struct MimeTypeMetadata {
    pub type_: &'static str,
    pub description: &'static str,
    pub suffixes: &'static str,
    pub enabled_plugin_name: &'static str,
}

/// The text of a MIME type description.
pub struct MimeTypeView {
    pub type_: Seq<char>,
    pub description: Seq<char>,
    pub suffixes: Seq<char>,
    pub enabled_plugin_name: Seq<char>,
}

impl View for MimeTypeMetadata {
    type V = MimeTypeView;

    open spec fn view(&self) -> MimeTypeView {
        MimeTypeView {
            type_: self.type_@,
            description: self.description@,
            suffixes: self.suffixes@,
            enabled_plugin_name: self.enabled_plugin_name@,
        }
    }
}

/// Static description of a plugin.
pub struct PluginMetadata {
    pub name: &'static str,
    pub description: &'static str,
    pub filename: &'static str,
    pub mime_types: Vec<MimeTypeMetadata>,
}

/// The text of a plugin description.
pub struct PluginView {
    pub name: Seq<char>,
    pub description: Seq<char>,
    pub filename: Seq<char>,
    pub mime_types: Seq<MimeTypeView>,
}

impl View for PluginMetadata {
    type V = PluginView;

    open spec fn view(&self) -> PluginView {
        PluginView {
            name: self.name@,
            description: self.description@,
            filename: self.filename@,
            mime_types: self.mime_types@.map_values(|m: MimeTypeMetadata| m@),
        }
    }
}

/// The two PDF MIME types, both enabled by the plugin `PDF Viewer`.
pub open spec fn pdf_mime_types_view() -> Seq<MimeTypeView> {
    seq![
        MimeTypeView {
            type_: "application/pdf"@,
            description: "Portable Document Format"@,
            suffixes: "pdf"@,
            enabled_plugin_name: "PDF Viewer"@,
        },
        MimeTypeView {
            type_: "text/pdf"@,
            description: "Portable Document Format"@,
            suffixes: "pdf"@,
            enabled_plugin_name: "PDF Viewer"@,
        },
    ]
}

/// A PDF viewer plugin named `name`.
pub open spec fn pdf_plugin_view(name: Seq<char>) -> PluginView {
    PluginView {
        name: name,
        description: "Portable Document Format"@,
        filename: "internal-pdf-viewer"@,
        mime_types: pdf_mime_types_view(),
    }
}

/// The names of the PDF viewer plugins Chrome reports, in order.
pub open spec fn pdf_plugin_names() -> Seq<Seq<char>> {
    seq![
        "PDF Viewer"@,
        "Chrome PDF Viewer"@,
        "Chromium PDF Viewer"@,
        "Microsoft Edge PDF Viewer"@,
        "WebKit built-in PDF"@,
    ]
}

/// The plugins exposed to scripts.
pub open spec fn exposed_plugins(enabled: bool) -> Seq<PluginView> {
    if enabled {
        pdf_plugin_names().map_values(|name: Seq<char>| pdf_plugin_view(name))
    } else {
        Seq::empty()
    }
}

/// The MIME types exposed to scripts.
pub open spec fn exposed_mime_types(enabled: bool) -> Seq<MimeTypeView> {
    if enabled {
        pdf_mime_types_view()
    } else {
        Seq::empty()
    }
}

/// The exposed plugin named `name`, if any.
pub open spec fn exposed_plugin_named(enabled: bool, name: Seq<char>) -> Option<PluginView> {
    if enabled && pdf_plugin_names().contains(name) {
        Some(pdf_plugin_view(name))
    } else {
        None
    }
}

/// The exposed MIME type whose type is `type_`, if any.
pub open spec fn exposed_mime_type_of(enabled: bool, type_: Seq<char>) -> Option<MimeTypeView> {
    if enabled && type_ == "application/pdf"@ {
        Some(pdf_mime_types_view()[0])
    } else if enabled && type_ == "text/pdf"@ {
        Some(pdf_mime_types_view()[1])
    } else {
        None
    }
}

fn pdf_mime_type(type_: &'static str) -> (r: MimeTypeMetadata)
    ensures
        r@ == (MimeTypeView {
            type_: type_@,
            description: "Portable Document Format"@,
            suffixes: "pdf"@,
            enabled_plugin_name: "PDF Viewer"@,
        }),
{
    MimeTypeMetadata {
        type_: type_,
        description: "Portable Document Format",
        suffixes: "pdf",
        enabled_plugin_name: "PDF Viewer",
    }
}

/// The two PDF MIME types.
pub fn pdf_mime_types() -> (r: Vec<MimeTypeMetadata>)
    ensures
        r@.map_values(|m: MimeTypeMetadata| m@) == pdf_mime_types_view(),
{
    let mut types: Vec<MimeTypeMetadata> = Vec::new();
    types.push(pdf_mime_type("application/pdf"));
    types.push(pdf_mime_type("text/pdf"));
    assert(types@.map_values(|m: MimeTypeMetadata| m@) =~= pdf_mime_types_view());
    types
}

/// A PDF viewer plugin named `name`, handling the two PDF MIME types.
pub fn pdf_plugin(name: &'static str) -> (r: PluginMetadata)
    ensures
        r@ == pdf_plugin_view(name@),
{
    PluginMetadata {
        name: name,
        description: "Portable Document Format",
        filename: "internal-pdf-viewer",
        mime_types: pdf_mime_types(),
    }
}

/// The plugins `navigator.plugins` lists: the five PDF viewers when the PDF
/// viewer is enabled, none otherwise.
pub fn chrome_pdf_plugins(enabled: bool) -> (r: Vec<PluginMetadata>)
    ensures
        r@.map_values(|p: PluginMetadata| p@) == exposed_plugins(enabled),
{
    let mut plugins: Vec<PluginMetadata> = Vec::new();
    if enabled {
        plugins.push(pdf_plugin("PDF Viewer"));
        plugins.push(pdf_plugin("Chrome PDF Viewer"));
        plugins.push(pdf_plugin("Chromium PDF Viewer"));
        plugins.push(pdf_plugin("Microsoft Edge PDF Viewer"));
        plugins.push(pdf_plugin("WebKit built-in PDF"));
    }
    assert(plugins@.map_values(|p: PluginMetadata| p@) =~= exposed_plugins(enabled));
    plugins
}

/// The MIME types `navigator.mimeTypes` lists: the two PDF types when the PDF
/// viewer is enabled, none otherwise.
pub fn chrome_pdf_mime_types(enabled: bool) -> (r: Vec<MimeTypeMetadata>)
    ensures
        r@.map_values(|m: MimeTypeMetadata| m@) == exposed_mime_types(enabled),
{
    if enabled {
        pdf_mime_types()
    } else {
        let none: Vec<MimeTypeMetadata> = Vec::new();
        assert(none@.map_values(|m: MimeTypeMetadata| m@) =~= Seq::<MimeTypeView>::empty());
        none
    }
}

/// The exposed plugin named `name`.
pub fn plugin_for_name(enabled: bool, name: &str) -> (r: Option<PluginMetadata>)
    ensures
        match r {
            Some(p) => exposed_plugin_named(enabled, name@) == Some(p@),
            None => exposed_plugin_named(enabled, name@) is None,
        },
{
    if !enabled {
        return None;
    }
    let ghost names = pdf_plugin_names();
    if str_eq(name, "PDF Viewer") {
        assert(names[0] == name@);
        Some(pdf_plugin("PDF Viewer"))
    } else if str_eq(name, "Chrome PDF Viewer") {
        assert(names[1] == name@);
        Some(pdf_plugin("Chrome PDF Viewer"))
    } else if str_eq(name, "Chromium PDF Viewer") {
        assert(names[2] == name@);
        Some(pdf_plugin("Chromium PDF Viewer"))
    } else if str_eq(name, "Microsoft Edge PDF Viewer") {
        assert(names[3] == name@);
        Some(pdf_plugin("Microsoft Edge PDF Viewer"))
    } else if str_eq(name, "WebKit built-in PDF") {
        assert(names[4] == name@);
        Some(pdf_plugin("WebKit built-in PDF"))
    } else {
        assert(!names.contains(name@)) by {
            if names.contains(name@) {
                let j = names.index_of(name@);
                assert(j == 0 || j == 1 || j == 2 || j == 3 || j == 4);
            }
        }
        None
    }
}

/// The exposed MIME type whose type is `type_`.
pub fn mime_type_for_type(enabled: bool, type_: &str) -> (r: Option<MimeTypeMetadata>)
    ensures
        match r {
            Some(m) => exposed_mime_type_of(enabled, type_@) == Some(m@),
            None => exposed_mime_type_of(enabled, type_@) is None,
        },
{
    if !enabled {
        None
    } else if str_eq(type_, "application/pdf") {
        Some(pdf_mime_type("application/pdf"))
    } else if str_eq(type_, "text/pdf") {
        Some(pdf_mime_type("text/pdf"))
    } else {
        None
    }
}

/// The first index in `types` whose MIME type is `type_`.
pub open spec fn first_mime_type_index(types: Seq<MimeTypeView>, type_: Seq<char>) -> Option<int> {
    if exists|j: int| 0 <= j < types.len() && #[trigger] types[j].type_ == type_ {
        Some(choose|j: int| 0 <= j < types.len() && types[j].type_ == type_
            && forall|k: int| 0 <= k < j ==> #[trigger] types[k].type_ != type_)
    } else {
        None
    }
}

fn find_mime_type(types: &Vec<MimeTypeMetadata>, type_: &str) -> (r: Option<usize>)
    ensures
        match r {
            Some(j) => first_mime_type_index(types@.map_values(|m: MimeTypeMetadata| m@), type_@) == Some(j as int)
                && j < types@.len(),
            None => first_mime_type_index(types@.map_values(|m: MimeTypeMetadata| m@), type_@) is None,
        },
{
    let ghost views = types@.map_values(|m: MimeTypeMetadata| m@);
    let mut j: usize = 0;
    while j < types.len()
        invariant
            j <= types@.len(),
            views == types@.map_values(|m: MimeTypeMetadata| m@),
            forall|k: int| 0 <= k < j ==> #[trigger] views[k].type_ != type_@,
        decreases types.len() - j,
    {
        if str_eq(types[j].type_, type_) {
            proof {
                assert(views[j as int].type_ == type_@);
                let c = choose|c: int| 0 <= c < views.len() && views[c].type_ == type_@
                    && forall|k: int| 0 <= k < c ==> #[trigger] views[k].type_ != type_@;
                if c < j {
                } else if c > j {
                    assert(views[j as int].type_ != type_@);
                }
            }
            return Some(j);
        }
        j = j + 1;
    }
    None
}

/// The `Plugin` interface object for one plugin.
pub struct Plugin {
    pub metadata: PluginMetadata,
}

/// The `MimeType` interface object for one MIME type.
pub struct MimeType {
    pub metadata: MimeTypeMetadata,
}

/// The `PluginArray` interface object (`navigator.plugins`).
pub struct PluginArray {}

/// The `MimeTypeArray` interface object (`navigator.mimeTypes`).
pub struct MimeTypeArray {}

impl MimeType {
    /// The object for `metadata`.
    pub fn new_inherited(metadata: MimeTypeMetadata) -> (r: MimeType)
        ensures
            r.metadata@ == metadata@,
    {
        MimeType { metadata }
    }

    /// The object for `metadata`.
    pub fn new(metadata: MimeTypeMetadata) -> (r: MimeType)
        ensures
            r.metadata@ == metadata@,
    {
        MimeType::new_inherited(metadata)
    }

    /// The MIME type.
    #[allow(non_snake_case)]
    pub fn Type(&self) -> (r: String)
        ensures
            r@ == self.metadata.type_@,
    {
        String::from_str(self.metadata.type_)
    }

    /// The human-readable description.
    #[allow(non_snake_case)]
    pub fn Description(&self) -> (r: String)
        ensures
            r@ == self.metadata.description@,
    {
        String::from_str(self.metadata.description)
    }

    /// The file name suffixes.
    #[allow(non_snake_case)]
    pub fn Suffixes(&self) -> (r: String)
        ensures
            r@ == self.metadata.suffixes@,
    {
        String::from_str(self.metadata.suffixes)
    }

    /// The plugin that handles this MIME type: the exposed plugin it names, or
    /// `PDF Viewer` when it names none. Only meaningful while plugins are exposed.
    #[allow(non_snake_case)]
    pub fn EnabledPlugin(&self, enabled: bool) -> (r: Plugin)
        requires
            enabled,
        ensures
            r.metadata@ == pdf_plugin_view(
                if pdf_plugin_names().contains(self.metadata.enabled_plugin_name@) {
                    self.metadata.enabled_plugin_name@
                } else {
                    "PDF Viewer"@
                },
            ),
    {
        match plugin_for_name(enabled, self.metadata.enabled_plugin_name) {
            Some(plugin) => Plugin::new(plugin),
            None => {
                proof {
                    reveal_strlit("PDF Viewer");
                    assert(pdf_plugin_names()[0] == "PDF Viewer"@);
                }
                match plugin_for_name(enabled, "PDF Viewer") {
                    Some(plugin) => Plugin::new(plugin),
                    None => {
                        assert(false);
                        Plugin::new(pdf_plugin("PDF Viewer"))
                    },
                }
            },
        }
    }
}

impl Plugin {
    /// The object for `metadata`.
    pub fn new_inherited(metadata: PluginMetadata) -> (r: Plugin)
        ensures
            r.metadata@ == metadata@,
    {
        Plugin { metadata }
    }

    /// The object for `metadata`.
    pub fn new(metadata: PluginMetadata) -> (r: Plugin)
        ensures
            r.metadata@ == metadata@,
    {
        Plugin::new_inherited(metadata)
    }

    /// The plugin name.
    #[allow(non_snake_case)]
    pub fn Name(&self) -> (r: String)
        ensures
            r@ == self.metadata.name@,
    {
        String::from_str(self.metadata.name)
    }

    /// The human-readable description.
    #[allow(non_snake_case)]
    pub fn Description(&self) -> (r: String)
        ensures
            r@ == self.metadata.description@,
    {
        String::from_str(self.metadata.description)
    }

    /// The plugin file name.
    #[allow(non_snake_case)]
    pub fn Filename(&self) -> (r: String)
        ensures
            r@ == self.metadata.filename@,
    {
        String::from_str(self.metadata.filename)
    }

    /// The number of MIME types the plugin handles.
    #[allow(non_snake_case)]
    pub fn Length(&self) -> (r: u32)
        ensures
            r == self.metadata.mime_types@.len() as u32,
    {
        self.metadata.mime_types.len() as u32
    }

    /// The MIME type at `index`.
    #[allow(non_snake_case)]
    pub fn Item(&self, index: u32) -> (r: Option<MimeType>)
        ensures
            r is Some <==> index < self.metadata.mime_types@.len(),
            r matches Some(m) ==> m.metadata@ == self.metadata.mime_types@[index as int]@,
    {
        let i: usize = index as usize;
        if i < self.metadata.mime_types.len() {
            Some(MimeType::new(self.metadata.mime_types[i]))
        } else {
            None
        }
    }

    /// The first MIME type of the plugin whose type is `name`.
    #[allow(non_snake_case)]
    pub fn NamedItem(&self, name: &str) -> (r: Option<MimeType>)
        ensures
            match first_mime_type_index(self.metadata@.mime_types, name@) {
                Some(j) => r matches Some(m) && m.metadata@ == self.metadata@.mime_types[j],
                None => r is None,
            },
    {
        match find_mime_type(&self.metadata.mime_types, name) {
            Some(j) => Some(MimeType::new(self.metadata.mime_types[j])),
            None => None,
        }
    }

    /// Same as `Item`.
    #[allow(non_snake_case)]
    pub fn IndexedGetter(&self, index: u32) -> (r: Option<MimeType>)
        ensures
            r is Some <==> index < self.metadata.mime_types@.len(),
            r matches Some(m) ==> m.metadata@ == self.metadata.mime_types@[index as int]@,
    {
        self.Item(index)
    }

    /// Same as `NamedItem`.
    #[allow(non_snake_case)]
    pub fn NamedGetter(&self, name: &str) -> (r: Option<MimeType>)
        ensures
            match first_mime_type_index(self.metadata@.mime_types, name@) {
                Some(j) => r matches Some(m) && m.metadata@ == self.metadata@.mime_types[j],
                None => r is None,
            },
    {
        self.NamedItem(name)
    }

    /// The MIME types of the plugin, in order.
    #[allow(non_snake_case)]
    pub fn SupportedPropertyNames(&self) -> (r: Vec<String>)
        ensures
            r@.map_values(|s: String| s@) == self.metadata@.mime_types.map_values(|m: MimeTypeView| m.type_),
    {
        let mut names: Vec<String> = Vec::new();
        let mut j: usize = 0;
        while j < self.metadata.mime_types.len()
            invariant
                j <= self.metadata.mime_types@.len(),
                names@.map_values(|s: String| s@) == self.metadata@.mime_types.subrange(0, j as int).map_values(
                    |m: MimeTypeView| m.type_,
                ),
            decreases self.metadata.mime_types.len() - j,
        {
            let ghost prev = names@;
            let text = String::from_str(self.metadata.mime_types[j].type_);
            names.push(text);
            proof {
                let views = self.metadata@.mime_types;
                assert(views[j as int] == self.metadata.mime_types@[j as int]@);
                assert(names@.map_values(|s: String| s@) =~= prev.map_values(|s: String| s@).push(text@));
                assert(views.subrange(0, j + 1).map_values(|m: MimeTypeView| m.type_)
                    =~= views.subrange(0, j as int).map_values(|m: MimeTypeView| m.type_).push(views[j as int].type_));
            }
            j = j + 1;
        }
        assert(self.metadata@.mime_types.subrange(0, j as int) =~= self.metadata@.mime_types);
        names
    }
}

impl PluginArray {
    /// The object.
    pub fn new_inherited() -> PluginArray {
        PluginArray {}
    }

    /// The object.
    pub fn new() -> PluginArray {
        PluginArray::new_inherited()
    }

    /// Reloading plugins does nothing: the list is fixed.
    #[allow(non_snake_case)]
    pub fn Refresh(&self, _reload: bool) {
    }

    /// The number of exposed plugins.
    #[allow(non_snake_case)]
    pub fn Length(&self, enabled: bool) -> (r: u32)
        ensures
            r == exposed_plugins(enabled).len(),
    {
        let plugins = chrome_pdf_plugins(enabled);
        assert(plugins@.len() == plugins@.map_values(|p: PluginMetadata| p@).len());
        assert(plugins@.len() <= 5);
        plugins.len() as u32
    }

    /// The exposed plugin at `index`.
    #[allow(non_snake_case)]
    pub fn Item(&self, enabled: bool, index: u32) -> (r: Option<Plugin>)
        ensures
            r is Some <==> index < exposed_plugins(enabled).len(),
            r matches Some(p) ==> p.metadata@ == exposed_plugins(enabled)[index as int],
    {
        let mut plugins = chrome_pdf_plugins(enabled);
        let i: usize = index as usize;
        if i < plugins.len() {
            let ghost views = plugins@.map_values(|p: PluginMetadata| p@);
            assert(views[i as int] == plugins@[i as int]@);
            let plugin = plugins.remove(i);
            Some(Plugin::new(plugin))
        } else {
            None
        }
    }

    /// The exposed plugin named `name`.
    #[allow(non_snake_case)]
    pub fn NamedItem(&self, enabled: bool, name: &str) -> (r: Option<Plugin>)
        ensures
            match exposed_plugin_named(enabled, name@) {
                Some(p) => r matches Some(q) && q.metadata@ == p,
                None => r is None,
            },
    {
        match plugin_for_name(enabled, name) {
            Some(plugin) => Some(Plugin::new(plugin)),
            None => None,
        }
    }

    /// Same as `Item`.
    #[allow(non_snake_case)]
    pub fn IndexedGetter(&self, enabled: bool, index: u32) -> (r: Option<Plugin>)
        ensures
            r is Some <==> index < exposed_plugins(enabled).len(),
            r matches Some(p) ==> p.metadata@ == exposed_plugins(enabled)[index as int],
    {
        self.Item(enabled, index)
    }

    /// Same as `NamedItem`.
    #[allow(non_snake_case)]
    pub fn NamedGetter(&self, enabled: bool, name: &str) -> (r: Option<Plugin>)
        ensures
            match exposed_plugin_named(enabled, name@) {
                Some(p) => r matches Some(q) && q.metadata@ == p,
                None => r is None,
            },
    {
        self.NamedItem(enabled, name)
    }

    /// The names of the exposed plugins, in order.
    #[allow(non_snake_case)]
    pub fn SupportedPropertyNames(&self, enabled: bool) -> (r: Vec<String>)
        ensures
            r@.map_values(|s: String| s@) == exposed_plugins(enabled).map_values(|p: PluginView| p.name),
    {
        let plugins = chrome_pdf_plugins(enabled);
        let ghost views = plugins@.map_values(|p: PluginMetadata| p@);
        let mut names: Vec<String> = Vec::new();
        let mut j: usize = 0;
        while j < plugins.len()
            invariant
                j <= plugins@.len(),
                views == plugins@.map_values(|p: PluginMetadata| p@),
                names@.map_values(|s: String| s@) == views.subrange(0, j as int).map_values(|p: PluginView| p.name),
            decreases plugins.len() - j,
        {
            let ghost prev = names@;
            let text = String::from_str(plugins[j].name);
            names.push(text);
            proof {
                assert(views[j as int] == plugins@[j as int]@);
                assert(names@.map_values(|s: String| s@) =~= prev.map_values(|s: String| s@).push(text@));
                assert(views.subrange(0, j + 1).map_values(|p: PluginView| p.name)
                    =~= views.subrange(0, j as int).map_values(|p: PluginView| p.name).push(views[j as int].name));
            }
            j = j + 1;
        }
        assert(views.subrange(0, j as int) =~= views);
        names
    }
}

impl MimeTypeArray {
    /// The object.
    pub fn new_inherited() -> MimeTypeArray {
        MimeTypeArray {}
    }

    /// The object.
    pub fn new() -> MimeTypeArray {
        MimeTypeArray::new_inherited()
    }

    /// The number of exposed MIME types.
    #[allow(non_snake_case)]
    pub fn Length(&self, enabled: bool) -> (r: u32)
        ensures
            r == exposed_mime_types(enabled).len(),
    {
        let types = chrome_pdf_mime_types(enabled);
        assert(types@.len() == types@.map_values(|m: MimeTypeMetadata| m@).len());
        assert(types@.len() <= 2);
        types.len() as u32
    }

    /// The exposed MIME type at `index`.
    #[allow(non_snake_case)]
    pub fn Item(&self, enabled: bool, index: u32) -> (r: Option<MimeType>)
        ensures
            r is Some <==> index < exposed_mime_types(enabled).len(),
            r matches Some(m) ==> m.metadata@ == exposed_mime_types(enabled)[index as int],
    {
        let types = chrome_pdf_mime_types(enabled);
        let i: usize = index as usize;
        if i < types.len() {
            let ghost views = types@.map_values(|m: MimeTypeMetadata| m@);
            assert(views[i as int] == types@[i as int]@);
            Some(MimeType::new(types[i]))
        } else {
            None
        }
    }

    /// The exposed MIME type whose type is `name`.
    #[allow(non_snake_case)]
    pub fn NamedItem(&self, enabled: bool, name: &str) -> (r: Option<MimeType>)
        ensures
            match exposed_mime_type_of(enabled, name@) {
                Some(m) => r matches Some(q) && q.metadata@ == m,
                None => r is None,
            },
    {
        match mime_type_for_type(enabled, name) {
            Some(m) => Some(MimeType::new(m)),
            None => None,
        }
    }

    /// Same as `Item`.
    #[allow(non_snake_case)]
    pub fn IndexedGetter(&self, enabled: bool, index: u32) -> (r: Option<MimeType>)
        ensures
            r is Some <==> index < exposed_mime_types(enabled).len(),
            r matches Some(m) ==> m.metadata@ == exposed_mime_types(enabled)[index as int],
    {
        self.Item(enabled, index)
    }

    /// Same as `NamedItem`.
    #[allow(non_snake_case)]
    pub fn NamedGetter(&self, enabled: bool, name: &str) -> (r: Option<MimeType>)
        ensures
            match exposed_mime_type_of(enabled, name@) {
                Some(m) => r matches Some(q) && q.metadata@ == m,
                None => r is None,
            },
    {
        self.NamedItem(enabled, name)
    }

    /// The types of the exposed MIME types, in order.
    #[allow(non_snake_case)]
    pub fn SupportedPropertyNames(&self, enabled: bool) -> (r: Vec<String>)
        ensures
            r@.map_values(|s: String| s@) == exposed_mime_types(enabled).map_values(|m: MimeTypeView| m.type_),
    {
        let types = chrome_pdf_mime_types(enabled);
        let ghost views = types@.map_values(|m: MimeTypeMetadata| m@);
        let mut names: Vec<String> = Vec::new();
        let mut j: usize = 0;
        while j < types.len()
            invariant
                j <= types@.len(),
                views == types@.map_values(|m: MimeTypeMetadata| m@),
                names@.map_values(|s: String| s@) == views.subrange(0, j as int).map_values(|m: MimeTypeView| m.type_),
            decreases types.len() - j,
        {
            let ghost prev = names@;
            let text = String::from_str(types[j].type_);
            names.push(text);
            proof {
                assert(views[j as int] == types@[j as int]@);
                assert(names@.map_values(|s: String| s@) =~= prev.map_values(|s: String| s@).push(text@));
                assert(views.subrange(0, j + 1).map_values(|m: MimeTypeView| m.type_)
                    =~= views.subrange(0, j as int).map_values(|m: MimeTypeView| m.type_).push(views[j as int].type_));
            }
            j = j + 1;
        }
        assert(views.subrange(0, j as int) =~= views);
        names
    }
}

/// Law: looking a listed plugin up by its name gives back that plugin.
pub proof fn law_listed_plugins_are_found_by_name(enabled: bool, i: int)
    requires
        0 <= i < exposed_plugins(enabled).len(),
    ensures
        exposed_plugin_named(enabled, exposed_plugins(enabled)[i].name) == Some(exposed_plugins(enabled)[i]),
{
    let names = pdf_plugin_names();
    assert(exposed_plugins(enabled)[i] == pdf_plugin_view(names[i]));
    assert(names.contains(names[i]));
}

/// Law: looking a listed MIME type up by its type gives back that MIME type.
pub proof fn law_listed_mime_types_are_found_by_type(enabled: bool, i: int)
    requires
        0 <= i < exposed_mime_types(enabled).len(),
    ensures
        exposed_mime_type_of(enabled, exposed_mime_types(enabled)[i].type_) == Some(exposed_mime_types(enabled)[i]),
{
    reveal_strlit("application/pdf");
    reveal_strlit("text/pdf");
    assert("text/pdf"@.len() != "application/pdf"@.len());
}

/// Law: the plugin every listed MIME type names is itself listed, so
/// `MimeType.enabledPlugin` always finds it.
pub proof fn law_mime_types_name_a_listed_plugin(i: int)
    requires
        0 <= i < exposed_mime_types(true).len(),
    ensures
        exposed_plugin_named(true, exposed_mime_types(true)[i].enabled_plugin_name)
            == Some(pdf_plugin_view(exposed_mime_types(true)[i].enabled_plugin_name)),
{
    assert(pdf_plugin_names()[0] == "PDF Viewer"@);
    assert(pdf_plugin_names().contains("PDF Viewer"@));
}

} // verus!
