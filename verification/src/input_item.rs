//! Items of a playlist, as a reader of playlists describes them.

use vstd::prelude::*;

verus! {

/// The kinds of metadata that an item can carry.
#[derive(Debug, Clone, Copy, PartialEq, Eq, Structural)]
pub enum MetaType {
    Title,
    Artist,
    AlbumArtist,
    Genre,
    Description,
    Date,
    TrackNumber,
}

/// What an item is.
#[derive(Debug, Clone, Copy, PartialEq, Eq, Structural)]
pub enum ItemType {
    Unknown,
    File,
    Directory,
    Disc,
    Card,
    Stream,
    Playlist,
    Node,
}

/// Where an item lies.
#[derive(Debug, Clone, Copy, PartialEq, Eq, Structural)]
pub enum NetType {
    Unknown,
    Net,
    Local,
}

/// The flag of an option that the user can be trusted to have meant.
pub const VLC_INPUT_OPTION_TRUSTED: u32 = 0x2;

/// An item of a playlist: where it lies, how it is called, and what is known
/// of it.
#[derive(Debug, Clone, PartialEq, Eq)]
pub struct CInputItem {
    pub uri: String,
    pub name: String,
    pub duration: i64,
    pub item_type: ItemType,
    pub net_type: NetType,
    /// The metadata, oldest first; of two entries of one kind the later one
    /// counts.
    pub metas: Vec<(MetaType, String)>,
    /// The options with their flags, in the order in which they were added.
    pub options: Vec<(String, u32)>,
}

/// What a [`CInputItem`] stands for.
pub struct CInputItemView {
    pub uri: Seq<char>,
    pub name: Seq<char>,
    pub duration: i64,
    pub item_type: ItemType,
    pub net_type: NetType,
    pub metas: Seq<(MetaType, Seq<char>)>,
    pub options: Seq<(Seq<char>, u32)>,
}

/// The metadata entries in `v` with the texts of their values.
pub open spec fn metas_view(v: Seq<(MetaType, String)>) -> Seq<(MetaType, Seq<char>)> {
    Seq::new(v.len(), |i: int| (v[i].0, v[i].1@))
}

/// The options in `v` with the texts of their names.
pub open spec fn options_view(v: Seq<(String, u32)>) -> Seq<(Seq<char>, u32)> {
    Seq::new(v.len(), |i: int| (v[i].0@, v[i].1))
}

impl View for CInputItem {
    type V = CInputItemView;

    open spec fn view(&self) -> CInputItemView {
        CInputItemView {
            uri: self.uri@,
            name: self.name@,
            duration: self.duration,
            item_type: self.item_type,
            net_type: self.net_type,
            metas: metas_view(self.metas@),
            options: options_view(self.options@),
        }
    }
}

impl CInputItemView {
    /// The item that has a place and a name and nothing else.
    pub open spec fn fresh(
        uri: Seq<char>,
        name: Seq<char>,
        duration: i64,
        item_type: ItemType,
        net_type: NetType,
    ) -> CInputItemView {
        CInputItemView {
            uri,
            name,
            duration,
            item_type,
            net_type,
            metas: Seq::empty(),
            options: Seq::empty(),
        }
    }

    /// The item with one more metadata entry.
    pub open spec fn with_meta(self, meta_type: MetaType, val: Seq<char>) -> CInputItemView {
        CInputItemView { metas: self.metas.push((meta_type, val)), ..self }
    }

    /// The item with one more option.
    pub open spec fn with_option(self, option: Seq<char>, flags: u32) -> CInputItemView {
        CInputItemView { options: self.options.push((option, flags)), ..self }
    }

    /// The item with more options, all with the same flags.
    pub open spec fn with_options(self, options: Seq<Seq<char>>, flags: u32) -> CInputItemView
        decreases options.len(),
    {
        if options.len() == 0 {
            self
        } else {
            self.with_options(options.drop_last(), flags).with_option(options.last(), flags)
        }
    }
}

impl CInputItem {
    /// Creates an item with a place and a name.
    pub fn new(uri: &str, name: &str, i_duration: i64, i_type: ItemType, i_net: NetType) -> (item:
        CInputItem)
        ensures
            item@ == CInputItemView::fresh(uri@, name@, i_duration, i_type, i_net),
    {
        let item: CInputItem = CInputItem {
            uri: uri.to_owned(),
            name: name.to_owned(),
            duration: i_duration,
            item_type: i_type,
            net_type: i_net,
            metas: Vec::new(),
            options: Vec::new(),
        };
        assert(metas_view(item.metas@) =~= Seq::empty());
        assert(options_view(item.options@) =~= Seq::empty());
        item
    }

    /// Adds an option.
    pub fn add_option(&mut self, option_type: &str, flags: u32)
        ensures
            final(self)@ == old(self)@.with_option(option_type@, flags),
    {
        let ghost before: Seq<(Seq<char>, u32)> = options_view(self.options@);
        self.options.push((option_type.to_owned(), flags));
        assert(options_view(self.options@) =~= before.push((option_type@, flags)));
    }

    /// Adds options, in their order, all with the same flags.
    pub fn add_options(&mut self, options_type: Vec<String>, i_flags: u32)
        ensures
            final(self)@ == old(self)@.with_options(
                crate::cuesheet::parse::texts(options_type@),
                i_flags,
            ),
    {
        let ghost all: Seq<Seq<char>> = crate::cuesheet::parse::texts(options_type@);
        let mut i: usize = 0;
        assert(all.take(0) =~= Seq::<Seq<char>>::empty());
        while i < options_type.len()
            invariant
                i <= options_type@.len(),
                all == crate::cuesheet::parse::texts(options_type@),
                self@ == old(self)@.with_options(all.take(i as int), i_flags),
            decreases options_type@.len() - i,
        {
            self.add_option(options_type[i].as_str(), i_flags);
            proof {
                assert(all.take(i as int + 1).drop_last() =~= all.take(i as int));
                assert(all.take(i as int + 1).last() == options_type@[i as int]@);
            }
            i = i + 1;
        }
        assert(all.take(options_type@.len() as int) =~= all);
    }

    /// Sets a piece of metadata.
    pub fn set_meta(&mut self, meta_type: MetaType, val: &str)
        ensures
            final(self)@ == old(self)@.with_meta(meta_type, val@),
    {
        let ghost before: Seq<(MetaType, Seq<char>)> = metas_view(self.metas@);
        self.metas.push((meta_type, val.to_owned()));
        assert(metas_view(self.metas@) =~= before.push((meta_type, val@)));
    }
}

/// A node of a playlist: the items below it, in order.
#[derive(Debug, Clone, PartialEq, Eq)]
pub struct CInputItemNode {
    pub items: Vec<CInputItem>,
}

/// The views of the items in `v`, in order.
pub open spec fn items_view(v: Seq<CInputItem>) -> Seq<CInputItemView> {
    Seq::new(v.len(), |i: int| v[i]@)
}

impl View for CInputItemNode {
    type V = Seq<CInputItemView>;

    open spec fn view(&self) -> Seq<CInputItemView> {
        items_view(self.items@)
    }
}

impl CInputItemNode {
    /// Creates a node without items.
    pub fn new() -> (node: CInputItemNode)
        ensures
            node@ == Seq::<CInputItemView>::empty(),
    {
        let node: CInputItemNode = CInputItemNode { items: Vec::new() };
        assert(items_view(node.items@) =~= Seq::empty());
        node
    }

    /// Adds an item below this node, after the items that are there.
    pub fn append_item(&mut self, item: CInputItem)
        ensures
            final(self)@ == old(self)@.push(item@),
    {
        let ghost before: Seq<CInputItemView> = items_view(self.items@);
        self.items.push(item);
        assert(items_view(self.items@) =~= before.push(item@));
    }
}

} // verus!
