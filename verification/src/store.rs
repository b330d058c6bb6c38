use vstd::prelude::*;

verus! {

/// Mathematical model of the artifact directory: the byte contents of the two
/// fixed files, where `None` means the file does not exist.
#[verifier::ext_equal]
pub struct StoreView {
    pub full: Option<Seq<u8>>,
    pub selection: Option<Seq<u8>>,
}

/// The two raster artifacts the pipeline hands from stage to stage: the
/// full-frame capture and the cropped selection, each a PNG byte stream kept
/// at a fixed, overwritable location. At most one of each ever exists.
#[derive(Clone, Debug, PartialEq, Eq)]
pub struct ArtifactStore {
    pub full: Option<Vec<u8>>,
    pub selection: Option<Vec<u8>>,
}

impl View for ArtifactStore {
    type V = StoreView;

    open spec fn view(&self) -> StoreView {
        StoreView {
            full: match self.full {
                Some(b) => Some(b@),
                None => None,
            },
            selection: match self.selection {
                Some(b) => Some(b@),
                None => None,
            },
        }
    }
}

impl ArtifactStore {
    /// A directory holding neither artifact.
    pub fn empty() -> (s: Self)
        ensures
            s@.full is None,
            s@.selection is None,
    {
        ArtifactStore { full: None, selection: None }
    }
}

} // verus!
