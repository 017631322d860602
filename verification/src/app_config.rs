//! The settings record and its TOML form.

use crate::toml_table::{
    all_scalar, insert_scalar, item_at, lookup, new_table, parse_table, parsed_items, render_table,
    rendered_text, Item, ItemView, Scalar,
};
use vstd::prelude::*;

verus! {

/// The graphics backend the game is started with.
#[derive(PartialEq, Eq, Structural, Debug, Clone, Copy)]
pub enum Renderer {
    DX8,
    DX9,
    DX10,
    DX11,
}

/// True where the two texts are the same sequence of characters.
pub(crate) fn same_text(left: &str, right: &str) -> (same: bool)
    ensures
        same == (left@ == right@),
{
    left.to_owned() == right.to_owned()
}

impl Renderer {
    /// The name a renderer has in the settings file.
    pub open spec fn spec_name(self) -> Seq<char> {
        match self {
            Renderer::DX8 => "DX8"@,
            Renderer::DX9 => "DX9"@,
            Renderer::DX10 => "DX10"@,
            Renderer::DX11 => "DX11"@,
        }
    }

    /// The renderer that a name of the settings file stands for.
    pub open spec fn spec_from_name(name: Seq<char>) -> Option<Renderer> {
        if name == "DX8"@ {
            Some(Renderer::DX8)
        } else if name == "DX9"@ {
            Some(Renderer::DX9)
        } else if name == "DX10"@ {
            Some(Renderer::DX10)
        } else if name == "DX11"@ {
            Some(Renderer::DX11)
        } else {
            None
        }
    }

    /// The name under which the renderer is written to the settings file.
    pub fn name(&self) -> (name: &'static str)
        ensures
            name@ == self.spec_name(),
    {
        match self {
            Renderer::DX8 => "DX8",
            Renderer::DX9 => "DX9",
            Renderer::DX10 => "DX10",
            Renderer::DX11 => "DX11",
        }
    }

    /// Reads a renderer's name; `None` for any other text.
    pub fn from_name(name: &str) -> (renderer: Option<Renderer>)
        ensures
            renderer == Self::spec_from_name(name@),
    {
        if same_text(name, "DX8") {
            Some(Renderer::DX8)
        } else if same_text(name, "DX9") {
            Some(Renderer::DX9)
        } else if same_text(name, "DX10") {
            Some(Renderer::DX10)
        } else if same_text(name, "DX11") {
            Some(Renderer::DX11)
        } else {
            None
        }
    }
    /// The name the launcher shows for the renderer.
    pub open spec fn spec_label(self) -> Seq<char> {
        match self {
            Renderer::DX8 => "DirectX 8"@,
            Renderer::DX9 => "DirectX 9"@,
            Renderer::DX10 => "DirectX 10"@,
            Renderer::DX11 => "DirectX 11"@,
        }
    }

    /// The name the launcher shows for the renderer.
    pub fn label(&self) -> (label: &'static str)
        ensures
            label@ == self.spec_label(),
    {
        match self {
            Renderer::DX8 => "DirectX 8",
            Renderer::DX9 => "DirectX 9",
            Renderer::DX10 => "DirectX 10",
            Renderer::DX11 => "DirectX 11",
        }
    }
}

/// The size of the shadow map the game renders with.
#[derive(PartialEq, Eq, Structural, Debug, Clone, Copy)]
pub enum ShadowMapSize {
    Size1536,
    Size2048,
    Size2560,
    Size3072,
    Size4096,
}

impl ShadowMapSize {
    /// The name a size has in the settings file.
    pub open spec fn spec_name(self) -> Seq<char> {
        match self {
            ShadowMapSize::Size1536 => "Size1536"@,
            ShadowMapSize::Size2048 => "Size2048"@,
            ShadowMapSize::Size2560 => "Size2560"@,
            ShadowMapSize::Size3072 => "Size3072"@,
            ShadowMapSize::Size4096 => "Size4096"@,
        }
    }

    /// The size that a name of the settings file stands for.
    pub open spec fn spec_from_name(name: Seq<char>) -> Option<ShadowMapSize> {
        if name == "Size1536"@ {
            Some(ShadowMapSize::Size1536)
        } else if name == "Size2048"@ {
            Some(ShadowMapSize::Size2048)
        } else if name == "Size2560"@ {
            Some(ShadowMapSize::Size2560)
        } else if name == "Size3072"@ {
            Some(ShadowMapSize::Size3072)
        } else if name == "Size4096"@ {
            Some(ShadowMapSize::Size4096)
        } else {
            None
        }
    }

    /// The size in texels, in decimal digits, as the launcher shows it.
    pub open spec fn spec_label(self) -> Seq<char> {
        match self {
            ShadowMapSize::Size1536 => "1536"@,
            ShadowMapSize::Size2048 => "2048"@,
            ShadowMapSize::Size2560 => "2560"@,
            ShadowMapSize::Size3072 => "3072"@,
            ShadowMapSize::Size4096 => "4096"@,
        }
    }

    /// The name under which the size is written to the settings file.
    pub fn name(&self) -> (name: &'static str)
        ensures
            name@ == self.spec_name(),
    {
        match self {
            ShadowMapSize::Size1536 => "Size1536",
            ShadowMapSize::Size2048 => "Size2048",
            ShadowMapSize::Size2560 => "Size2560",
            ShadowMapSize::Size3072 => "Size3072",
            ShadowMapSize::Size4096 => "Size4096",
        }
    }

    /// Reads a size's name; `None` for any other text.
    pub fn from_name(name: &str) -> (size: Option<ShadowMapSize>)
        ensures
            size == Self::spec_from_name(name@),
    {
        if same_text(name, "Size1536") {
            Some(ShadowMapSize::Size1536)
        } else if same_text(name, "Size2048") {
            Some(ShadowMapSize::Size2048)
        } else if same_text(name, "Size2560") {
            Some(ShadowMapSize::Size2560)
        } else if same_text(name, "Size3072") {
            Some(ShadowMapSize::Size3072)
        } else if same_text(name, "Size4096") {
            Some(ShadowMapSize::Size4096)
        } else {
            None
        }
    }

    /// The size in texels, in decimal digits, as the launcher shows it.
    pub fn label(&self) -> (label: &'static str)
        ensures
            label@ == self.spec_label(),
    {
        match self {
            ShadowMapSize::Size1536 => "1536",
            ShadowMapSize::Size2048 => "2048",
            ShadowMapSize::Size2560 => "2560",
            ShadowMapSize::Size3072 => "3072",
            ShadowMapSize::Size4096 => "4096",
        }
    }
}

/// The launcher's settings. Every field always holds one of its values:
/// there is no partly filled record.
#[derive(PartialEq, Eq, Structural, Debug, Clone, Copy)]
pub struct AppConfig {
    pub renderer: Renderer,
    pub use_avx: bool,
    pub shadow_map: ShadowMapSize,
    pub debug: bool,
    pub prefetch_sounds: bool,
}

/// Why the settings could not be loaded or stored.
#[derive(PartialEq, Eq, Structural, Debug, Clone, Copy)]
pub enum AppConfigError {
    /// The settings file is absent or cannot be read.
    ReadFailed,
    /// The file is there, but its text is not a full settings record.
    BadStructure,
    /// The settings file cannot be written.
    WriteFailed,
}

impl Default for AppConfig {
    /// The settings of a fresh installation.
    fn default() -> (config: Self)
        ensures
            config.renderer == Renderer::DX10,
            config.shadow_map == ShadowMapSize::Size2048,
            config.debug,
            config.use_avx,
            !config.prefetch_sounds,
    {
        Self {
            renderer: Renderer::DX10,
            shadow_map: ShadowMapSize::Size2048,
            debug: true,
            use_avx: true,
            prefetch_sounds: false,
        }
    }
}

/// The name of the settings file, looked for in the working directory.
pub const CONFIG_FILE: &'static str = "launcherconfig.toml";

impl AppConfig {
    /// The entries of the table that a record is written as: one per field,
    /// under the field's name, the two choices by name and the flags as
    /// booleans.
    pub open spec fn spec_items(self) -> Map<Seq<char>, ItemView> {
        Map::empty()
            .insert("renderer"@, ItemView::Text(self.renderer.spec_name()))
            .insert("use_avx"@, ItemView::Flag(self.use_avx))
            .insert("shadow_map"@, ItemView::Text(self.shadow_map.spec_name()))
            .insert("debug"@, ItemView::Flag(self.debug))
            .insert("prefetch_sounds"@, ItemView::Flag(self.prefetch_sounds))
    }

    /// The record that five entries make up. Each must be present and of its
    /// kind, and the two choices must name one of their values; if not, the
    /// structure is bad.
    pub open spec fn spec_from_entries(
        renderer: Option<ItemView>,
        use_avx: Option<ItemView>,
        shadow_map: Option<ItemView>,
        debug: Option<ItemView>,
        prefetch_sounds: Option<ItemView>,
    ) -> Result<AppConfig, AppConfigError> {
        match (renderer, use_avx, shadow_map, debug, prefetch_sounds) {
            (
                Some(ItemView::Text(renderer_name)),
                Some(ItemView::Flag(use_avx)),
                Some(ItemView::Text(shadow_map_name)),
                Some(ItemView::Flag(debug)),
                Some(ItemView::Flag(prefetch_sounds)),
            ) => match (
                Renderer::spec_from_name(renderer_name),
                ShadowMapSize::spec_from_name(shadow_map_name),
            ) {
                (Some(renderer), Some(shadow_map)) => Ok(
                    AppConfig { renderer, use_avx, shadow_map, debug, prefetch_sounds },
                ),
                _ => Err(AppConfigError::BadStructure),
            },
            _ => Err(AppConfigError::BadStructure),
        }
    }

    /// The record that the entries of a table make up. Entries under other
    /// keys are not looked at.
    pub open spec fn spec_from_items(items: Map<Seq<char>, ItemView>) -> Result<
        AppConfig,
        AppConfigError,
    > {
        Self::spec_from_entries(
            item_at(items, "renderer"@),
            item_at(items, "use_avx"@),
            item_at(items, "shadow_map"@),
            item_at(items, "debug"@),
            item_at(items, "prefetch_sounds"@),
        )
    }

    /// The record that a TOML text holds: the text must parse, and its
    /// top-level entries must make up a record.
    pub open spec fn spec_from_toml(text: Seq<char>) -> Result<AppConfig, AppConfigError> {
        match parsed_items(text) {
            Some(items) => Self::spec_from_items(items),
            None => Err(AppConfigError::BadStructure),
        }
    }

    /// What loading gives for the outcome of reading the settings file:
    /// `None` stands for a file that is absent or unreadable.
    pub open spec fn spec_from_file_content(content: Option<Seq<char>>) -> Result<
        AppConfig,
        AppConfigError,
    > {
        match content {
            Some(text) => Self::spec_from_toml(text),
            None => Err(AppConfigError::ReadFailed),
        }
    }

    /// Builds the record from the five entries of the settings file, each as
    /// found under its key (`None` where the key is missing).
    pub fn from_entries(
        renderer: Option<Item>,
        use_avx: Option<Item>,
        shadow_map: Option<Item>,
        debug: Option<Item>,
        prefetch_sounds: Option<Item>,
    ) -> (loaded: Result<AppConfig, AppConfigError>)
        ensures
            loaded == Self::spec_from_entries(
                entry_view(renderer),
                entry_view(use_avx),
                entry_view(shadow_map),
                entry_view(debug),
                entry_view(prefetch_sounds),
            ),
    {
        match (renderer, use_avx, shadow_map, debug, prefetch_sounds) {
            (
                Some(Item::Text(renderer_name)),
                Some(Item::Flag(use_avx)),
                Some(Item::Text(shadow_map_name)),
                Some(Item::Flag(debug)),
                Some(Item::Flag(prefetch_sounds)),
            ) => {
                match (
                    Renderer::from_name(renderer_name.as_str()),
                    ShadowMapSize::from_name(shadow_map_name.as_str()),
                ) {
                    (Some(renderer), Some(shadow_map)) => Ok(
                        AppConfig { renderer, use_avx, shadow_map, debug, prefetch_sounds },
                    ),
                    _ => Err(AppConfigError::BadStructure),
                }
            },
            _ => Err(AppConfigError::BadStructure),
        }
    }

    /// Reads the record out of a parsed table.
    pub fn from_table(table: &toml::Table) -> (loaded: Result<AppConfig, AppConfigError>)
        ensures
            loaded == Self::spec_from_items(crate::toml_table::table_items(*table)),
    {
        Self::from_entries(
            lookup(table, "renderer"),
            lookup(table, "use_avx"),
            lookup(table, "shadow_map"),
            lookup(table, "debug"),
            lookup(table, "prefetch_sounds"),
        )
    }

    /// Reads the record from the text of a settings file. Fails with
    /// `BadStructure`, and with nothing else, where the text is not TOML or
    /// its entries do not make up a record.
    pub fn from_toml(text: &str) -> (loaded: Result<AppConfig, AppConfigError>)
        ensures
            loaded == Self::spec_from_toml(text@),
    {
        match parse_table(text) {
            Ok(table) => Self::from_table(&table),
            Err(_) => Err(AppConfigError::BadStructure),
        }
    }

    /// Loads the record from what reading the settings file gave: its text,
    /// or `None` where the file is absent or unreadable, which is a
    /// `ReadFailed`.
    pub fn from_file_content(content: Option<&str>) -> (loaded: Result<AppConfig, AppConfigError>)
        ensures
            loaded == Self::spec_from_file_content(text_view(content)),
    {
        match content {
            Some(text) => Self::from_toml(text),
            None => Err(AppConfigError::ReadFailed),
        }
    }

    /// The record as a table: one entry per field.
    pub fn to_table(&self) -> (table: toml::Table)
        ensures
            crate::toml_table::table_items(table) == self.spec_items(),
    {
        let mut table = new_table();
        insert_scalar(&mut table, "renderer", Scalar::Text(self.renderer.name().to_owned()));
        insert_scalar(&mut table, "use_avx", Scalar::Flag(self.use_avx));
        insert_scalar(&mut table, "shadow_map", Scalar::Text(self.shadow_map.name().to_owned()));
        insert_scalar(&mut table, "debug", Scalar::Flag(self.debug));
        insert_scalar(&mut table, "prefetch_sounds", Scalar::Flag(self.prefetch_sounds));
        table
    }

    /// The text of the settings file for this record, as the `toml` crate
    /// renders the record's table; `None` where it reports an error.
    pub fn to_toml(&self) -> (text: Option<String>)
        ensures
            text is Some <==> rendered_text(self.spec_items()) is Some,
            text matches Some(rendered) ==> rendered_text(self.spec_items()) == Some(rendered@),
    {
        let table = self.to_table();
        proof {
            Self::lemma_items_all_scalar(*self);
        }
        match render_table(&table) {
            Ok(text) => Some(text),
            Err(_) => None,
        }
    }

    /// The table of a record holds strings and booleans only.
    pub proof fn lemma_items_all_scalar(config: AppConfig)
        ensures
            all_scalar(config.spec_items()),
    {
    }

    /// Reading the entries that a record is written as gives the record
    /// back, equal in all five fields.
    pub proof fn lemma_read_inverts_write(config: AppConfig)
        ensures
            Self::spec_from_items(config.spec_items()) == Ok::<AppConfig, AppConfigError>(config),
    {
        reveal_strlit("renderer");
        reveal_strlit("use_avx");
        reveal_strlit("shadow_map");
        reveal_strlit("debug");
        reveal_strlit("prefetch_sounds");
        assert("renderer"@.len() == 8);
        assert("use_avx"@.len() == 7);
        assert("shadow_map"@.len() == 10);
        assert("debug"@.len() == 5);
        assert("prefetch_sounds"@.len() == 15);
        lemma_renderer_name_read_back(config.renderer);
        lemma_shadow_map_name_read_back(config.shadow_map);
    }

    /// Entries under keys other than the five do not matter: two tables
    /// that agree on the five keys read alike.
    pub proof fn lemma_other_keys_ignored(
        items: Map<Seq<char>, ItemView>,
        others: Map<Seq<char>, ItemView>,
    )
        requires
            item_at(items, "renderer"@) == item_at(others, "renderer"@),
            item_at(items, "use_avx"@) == item_at(others, "use_avx"@),
            item_at(items, "shadow_map"@) == item_at(others, "shadow_map"@),
            item_at(items, "debug"@) == item_at(others, "debug"@),
            item_at(items, "prefetch_sounds"@) == item_at(others, "prefetch_sounds"@),
        ensures
            Self::spec_from_items(items) == Self::spec_from_items(others),
    {
    }

    /// Loading inverts storing: a text that parses to the very table a
    /// record is written as loads as that record. Whether the text rendered
    /// for the table parses back to it is the `toml` crate's part.
    pub proof fn lemma_load_inverts_write(config: AppConfig, text: Seq<char>)
        ensures
            parsed_items(text) == Some(config.spec_items()) ==> Self::spec_from_file_content(
                Some(text),
            ) == Ok::<AppConfig, AppConfigError>(config),
    {
        Self::lemma_read_inverts_write(config);
    }

    /// A table that lacks one of the five keys is no record: reading it
    /// fails with `BadStructure`.
    pub proof fn lemma_missing_key_is_bad_structure(items: Map<Seq<char>, ItemView>, key: Seq<char>)
        requires
            key == "renderer"@ || key == "use_avx"@ || key == "shadow_map"@ || key == "debug"@
                || key == "prefetch_sounds"@,
            !items.dom().contains(key),
        ensures
            Self::spec_from_items(items) == Err::<AppConfig, AppConfigError>(
                AppConfigError::BadStructure,
            ),
    {
    }
}

/// A renderer's name reads back as that renderer, and as no other: the four
/// names differ.
pub proof fn lemma_renderer_name_read_back(renderer: Renderer)
    ensures
        Renderer::spec_from_name(renderer.spec_name()) == Some(renderer),
        forall|name: Seq<char>| #[trigger]
            Renderer::spec_from_name(name) == Some(renderer) <==> name == renderer.spec_name(),
{
    reveal_strlit("DX8");
    reveal_strlit("DX9");
    reveal_strlit("DX10");
    reveal_strlit("DX11");
    assert("DX8"@.len() == 3 && "DX8"@[2] == '8');
    assert("DX9"@.len() == 3 && "DX9"@[2] == '9');
    assert("DX10"@.len() == 4 && "DX10"@[3] == '0');
    assert("DX11"@.len() == 4 && "DX11"@[3] == '1');
}

/// A shadow map size's name reads back as that size, and as no other: the
/// five names differ.
pub proof fn lemma_shadow_map_name_read_back(size: ShadowMapSize)
    ensures
        ShadowMapSize::spec_from_name(size.spec_name()) == Some(size),
        forall|name: Seq<char>| #[trigger]
            ShadowMapSize::spec_from_name(name) == Some(size) <==> name == size.spec_name(),
{
    reveal_strlit("Size1536");
    reveal_strlit("Size2048");
    reveal_strlit("Size2560");
    reveal_strlit("Size3072");
    reveal_strlit("Size4096");
    assert("Size1536"@[4] == '1');
    assert("Size2048"@[4] == '2' && "Size2048"@[5] == '0');
    assert("Size2560"@[4] == '2' && "Size2560"@[5] == '5');
    assert("Size3072"@[4] == '3');
    assert("Size4096"@[4] == '4');
}

/// The mathematical value of an entry that may be missing.
pub open spec fn entry_view(entry: Option<Item>) -> Option<ItemView> {
    match entry {
        Some(item) => Some(item@),
        None => None,
    }
}

/// The characters of a text that may be missing.
pub open spec fn text_view(content: Option<&str>) -> Option<Seq<char>> {
    match content {
        Some(text) => Some(text@),
        None => None,
    }
}

} // verus!
