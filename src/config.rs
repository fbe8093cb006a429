//! The overlay's configuration: a builder for the plugin and the record that the
//! running overlay reads, whose two lists callers replace at any time.
use vstd::prelude::*;

verus! {

/// The title shown until the embedding application sets one.
pub open spec fn default_title() -> Seq<char> {
    "Default Title: Not Set"@
}

/// The camera layer used until the embedding application sets one.
pub const DEFAULT_CAMERA_LAYER: isize = -1;

/// Builder for the overlay's configuration.
pub struct BevyEasyVecUiPlugin {
    pub font_path: String,
    pub camera_layer: isize,
    pub title: String,
    pub data_vec_left: Vec<String>,
    pub data_vec_right: Vec<String>,
}

/// The configuration that the running overlay reads: the two lists are replaced
/// wholesale by `inject_vec_left` and `inject_vec_right`.
pub struct EasyVecUi {
    pub font_path: String,
    pub camera_layer: isize,
    pub title: String,
    pub data_vec_left: Vec<String>,
    pub data_vec_right: Vec<String>,
}

impl BevyEasyVecUiPlugin {
    /// A configuration that loads its font from `font_path`, with every other
    /// field at its default.
    pub fn init(font_path: &str) -> (r: Self)
        ensures
            r.font_path@ == font_path@,
            r.camera_layer == DEFAULT_CAMERA_LAYER,
            r.title@ == default_title(),
            r.data_vec_left@.len() == 0,
            r.data_vec_right@.len() == 0,
    {
        BevyEasyVecUiPlugin {
            font_path: font_path.to_owned(),
            camera_layer: DEFAULT_CAMERA_LAYER,
            title: "Default Title: Not Set".to_owned(),
            data_vec_left: Vec::new(),
            data_vec_right: Vec::new(),
        }
    }

    /// Sets the order of the overlay's camera.
    pub fn camera_layer(self, layer: isize) -> (r: Self)
        ensures
            r == (Self { camera_layer: layer, ..self }),
    {
        let mut s = self;
        s.camera_layer = layer;
        s
    }

    /// Sets the title text.
    pub fn title(self, title: &str) -> (r: Self)
        ensures
            r.title@ == title@,
            r.font_path == self.font_path,
            r.camera_layer == self.camera_layer,
            r.data_vec_left == self.data_vec_left,
            r.data_vec_right == self.data_vec_right,
    {
        let mut s = self;
        s.title = title.to_owned();
        s
    }

    /// Finishes the builder; the configuration is handed on unchanged.
    pub fn build(self) -> (r: BevyEasyVecUiPlugin)
        ensures
            r == self,
    {
        BevyEasyVecUiPlugin {
            font_path: self.font_path,
            camera_layer: self.camera_layer,
            title: self.title,
            data_vec_left: self.data_vec_left,
            data_vec_right: self.data_vec_right,
        }
    }

    /// The record that the running overlay reads, with the builder's values.
    pub fn resource(&self) -> (r: EasyVecUi)
        ensures
            r.font_path == self.font_path,
            r.camera_layer == self.camera_layer,
            r.title == self.title,
            r.data_vec_left@ == self.data_vec_left@,
            r.data_vec_right@ == self.data_vec_right@,
    {
        EasyVecUi {
            font_path: self.font_path.clone(),
            camera_layer: self.camera_layer,
            title: self.title.clone(),
            data_vec_left: clone_strings(&self.data_vec_left),
            data_vec_right: clone_strings(&self.data_vec_right),
        }
    }
}

/// A copy of a list of strings, element for element.
pub fn clone_strings(v: &Vec<String>) -> (r: Vec<String>)
    ensures
        r@ == v@,
{
    let mut r: Vec<String> = Vec::new();
    let mut i: usize = 0;
    while i < v.len()
        invariant
            i <= v@.len(),
            r@ == v@.subrange(0, i as int),
        decreases v@.len() - i,
    {
        r.push(v[i].clone());
        i = i + 1;
    }
    assert(r@ =~= v@);
    r
}

impl EasyVecUi {
    /// Replaces the left list wholesale.
    pub fn inject_vec_left(&mut self, vec: Vec<String>)
        ensures
            final(self).data_vec_left@ == vec@,
            final(self).data_vec_right == old(self).data_vec_right,
            final(self).title == old(self).title,
            final(self).font_path == old(self).font_path,
            final(self).camera_layer == old(self).camera_layer,
    {
        self.data_vec_left = vec;
    }

    /// Replaces the right list wholesale.
    pub fn inject_vec_right(&mut self, vec: Vec<String>)
        ensures
            final(self).data_vec_right@ == vec@,
            final(self).data_vec_left == old(self).data_vec_left,
            final(self).title == old(self).title,
            final(self).font_path == old(self).font_path,
            final(self).camera_layer == old(self).camera_layer,
    {
        self.data_vec_right = vec;
    }
}

} // verus!
