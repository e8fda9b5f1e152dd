//! Data model for shell-case records: camera regions, captured images, and
//! the shell metadata that the tagging workflow edits.
//!
//! Persistence of these records (JSON files under a data directory) is plain
//! file I/O and lives outside the core; this module owns the record
//! structure, the region bookkeeping, and the file-name convention.

use vstd::prelude::*;

use crate::config::ViewType;

verus! {

/// Pixel region of interest within one camera image.
#[derive(Debug, Clone, PartialEq)]
pub struct CameraRegion {
    pub view_type: ViewType,
    pub region_x: Option<i32>,
    pub region_y: Option<i32>,
    pub region_width: Option<i32>,
    pub region_height: Option<i32>,
}

/// A region is complete when all four coordinates are present.
pub open spec fn spec_region_complete(
    x: Option<i32>,
    y: Option<i32>,
    w: Option<i32>,
    h: Option<i32>,
) -> bool {
    x is Some && y is Some && w is Some && h is Some
}

impl CameraRegion {
    /// Create a new camera region with the specified parameters.
    pub fn new(
        view_type: ViewType,
        region_x: Option<i32>,
        region_y: Option<i32>,
        region_width: Option<i32>,
        region_height: Option<i32>,
    ) -> (r: Self)
        ensures
            r == (CameraRegion { view_type, region_x, region_y, region_width, region_height }),
    {
        CameraRegion { view_type, region_x, region_y, region_width, region_height }
    }

    /// Check if this region has complete coordinate data.
    pub fn is_complete(&self) -> (r: bool)
        ensures
            r == spec_region_complete(
                self.region_x,
                self.region_y,
                self.region_width,
                self.region_height,
            ),
    {
        self.region_x.is_some() && self.region_y.is_some() && self.region_width.is_some()
            && self.region_height.is_some()
    }

    /// Get the region as a tuple (x, y, width, height) if complete.
    pub fn as_rect(&self) -> (r: Option<(i32, i32, i32, i32)>)
        ensures
            match r {
                Some(rect) => {
                    &&& self.region_x == Some(rect.0)
                    &&& self.region_y == Some(rect.1)
                    &&& self.region_width == Some(rect.2)
                    &&& self.region_height == Some(rect.3)
                },
                None => !spec_region_complete(
                    self.region_x,
                    self.region_y,
                    self.region_width,
                    self.region_height,
                ),
            },
    {
        if let (Some(x), Some(y), Some(w), Some(h)) = (
            self.region_x,
            self.region_y,
            self.region_width,
            self.region_height,
        ) {
            Some((x, y, w, h))
        } else {
            None
        }
    }
}

impl Default for CameraRegion {
    /// The default region carries no coordinates and an unknown view.
    fn default() -> (r: Self)
        ensures
            r.view_type == ViewType::Unknown,
            r.region_x is None,
            r.region_y is None,
            r.region_width is None,
            r.region_height is None,
    {
        CameraRegion {
            view_type: ViewType::Unknown,
            region_x: None,
            region_y: None,
            region_width: None,
            region_height: None,
        }
    }
}

/// Information about a captured image including camera and region data.
#[derive(Debug, PartialEq)]
pub struct CapturedImage {
    pub camera_index: u32,
    pub filename: String,
    pub camera_name: String,
    pub view_type: ViewType,
    pub region_x: Option<i32>,
    pub region_y: Option<i32>,
    pub region_width: Option<i32>,
    pub region_height: Option<i32>,
}

impl CapturedImage {
    /// Create a new captured image record, with no region data yet.
    pub fn new(camera_index: u32, filename: String, camera_name: String, view_type: ViewType) -> (r:
        Self)
        ensures
            r == (CapturedImage {
                camera_index,
                filename,
                camera_name,
                view_type,
                region_x: None,
                region_y: None,
                region_width: None,
                region_height: None,
            }),
    {
        CapturedImage {
            camera_index,
            filename,
            camera_name,
            view_type,
            region_x: None,
            region_y: None,
            region_width: None,
            region_height: None,
        }
    }

    /// Set the region data for this captured image.
    pub fn set_region(&mut self, region: &CameraRegion)
        ensures
            *final(self) == (CapturedImage {
                camera_index: old(self).camera_index,
                filename: old(self).filename,
                camera_name: old(self).camera_name,
                view_type: region.view_type,
                region_x: region.region_x,
                region_y: region.region_y,
                region_width: region.region_width,
                region_height: region.region_height,
            }),
    {
        self.view_type = region.view_type;
        self.region_x = region.region_x;
        self.region_y = region.region_y;
        self.region_width = region.region_width;
        self.region_height = region.region_height;
    }

    /// Get the region data as a CameraRegion.
    pub fn get_region(&self) -> (r: CameraRegion)
        ensures
            r == (CameraRegion {
                view_type: self.view_type,
                region_x: self.region_x,
                region_y: self.region_y,
                region_width: self.region_width,
                region_height: self.region_height,
            }),
    {
        CameraRegion {
            view_type: self.view_type,
            region_x: self.region_x,
            region_y: self.region_y,
            region_width: self.region_width,
            region_height: self.region_height,
        }
    }

    /// Check if this image has complete region data.
    pub fn has_complete_region(&self) -> (r: bool)
        ensures
            r == spec_region_complete(
                self.region_x,
                self.region_y,
                self.region_width,
                self.region_height,
            ),
    {
        self.region_x.is_some() && self.region_y.is_some() && self.region_width.is_some()
            && self.region_height.is_some()
    }
}

impl Clone for CapturedImage {
    fn clone(&self) -> (r: Self)
        ensures
            r == *self,
    {
        CapturedImage {
            camera_index: self.camera_index,
            filename: self.filename.clone(),
            camera_name: self.camera_name.clone(),
            view_type: self.view_type,
            region_x: self.region_x,
            region_y: self.region_y,
            region_width: self.region_width,
            region_height: self.region_height,
        }
    }
}

/// A shell case with metadata and captured images.
///
/// The capture date is kept as seconds since the Unix epoch.
#[derive(Debug, PartialEq)]
pub struct Shell {
    /// When the shell was captured, in seconds since the Unix epoch.
    pub date_captured: u64,
    /// Shell case brand (e.g., "Winchester", "Remington").
    pub brand: String,
    /// Shell case type (e.g., "9mm", "45acp", "223rem").
    pub shell_type: String,
    /// Image filenames associated with this shell.
    pub image_filenames: Vec<String>,
    /// Captured images with camera and region detail, once any exist.
    pub captured_images: Option<Vec<CapturedImage>>,
    /// Whether this shell belongs to the training set.
    pub include_in_training: bool,
}

/// The captured images of a shell, or the empty sequence when none were
/// recorded yet.
pub open spec fn spec_captured(s: Shell) -> Seq<CapturedImage> {
    match s.captured_images {
        Some(images) => images@,
        None => Seq::<CapturedImage>::empty(),
    }
}

/// The images of `s` with view type `v`, in record order.
pub open spec fn spec_images_with(s: Seq<CapturedImage>, v: ViewType) -> Seq<CapturedImage>
    decreases s.len(),
{
    if s.len() == 0 {
        Seq::<CapturedImage>::empty()
    } else if s.last().view_type == v {
        spec_images_with(s.drop_last(), v).push(s.last())
    } else {
        spec_images_with(s.drop_last(), v)
    }
}

impl Shell {
    /// Create a new shell record, stamped with the current time.
    pub fn new(brand: String, shell_type: String) -> (r: Self)
        ensures
            r.brand == brand,
            r.shell_type == shell_type,
            r.image_filenames@ == Seq::<String>::empty(),
            r.captured_images is None,
            r.include_in_training == true,
    {
        Shell {
            date_captured: now_epoch_secs(),
            brand,
            shell_type,
            image_filenames: Vec::new(),
            captured_images: None,
            include_in_training: true,
        }
    }

    /// Add an image filename to this shell.
    pub fn add_image(&mut self, filename: String)
        ensures
            final(self).image_filenames@ == old(self).image_filenames@.push(filename),
            final(self).date_captured == old(self).date_captured,
            final(self).brand == old(self).brand,
            final(self).shell_type == old(self).shell_type,
            final(self).captured_images == old(self).captured_images,
            final(self).include_in_training == old(self).include_in_training,
    {
        self.image_filenames.push(filename);
    }

    /// Add a captured image with metadata.
    pub fn add_captured_image(&mut self, captured_image: CapturedImage)
        ensures
            final(self).captured_images is Some,
            spec_captured(*final(self)) == spec_captured(*old(self)).push(captured_image),
            final(self).image_filenames@ == old(self).image_filenames@,
            final(self).date_captured == old(self).date_captured,
            final(self).brand == old(self).brand,
            final(self).shell_type == old(self).shell_type,
            final(self).include_in_training == old(self).include_in_training,
    {
        match &mut self.captured_images {
            Some(images) => {
                images.push(captured_image);
            },
            None => {
                let mut images: Vec<CapturedImage> = Vec::new();
                images.push(captured_image);
                proof {
                    assert(images@ =~= spec_captured(*old(self)).push(captured_image));
                }
                self.captured_images = Some(images);
            },
        }
    }

    /// The key grouping shells of one brand and type (`brand_shell_type`).
    pub fn get_case_type_key(&self) -> (r: String)
        ensures
            r@ == self.brand@ + "_"@ + self.shell_type@,
    {
        self.brand.clone().concat("_").concat(self.shell_type.as_str())
    }

    /// The number of captured images.
    pub fn image_count(&self) -> (r: usize)
        ensures
            r == spec_captured(*self).len(),
    {
        match &self.captured_images {
            Some(images) => images.len(),
            None => 0,
        }
    }

    /// Whether captured images exist and every one has complete region data.
    pub fn has_complete_regions(&self) -> (r: bool)
        ensures
            r == (self.captured_images is Some && forall|i: int|
                0 <= i < spec_captured(*self).len() ==> spec_region_complete(
                    #[trigger] spec_captured(*self)[i].region_x,
                    spec_captured(*self)[i].region_y,
                    spec_captured(*self)[i].region_width,
                    spec_captured(*self)[i].region_height,
                )),
    {
        match &self.captured_images {
            Some(images) => {
                let mut i: usize = 0;
                while i < images.len()
                    invariant
                        i <= images.len(),
                        images@ == spec_captured(*self),
                        forall|j: int| 0 <= j < i ==> spec_region_complete(
                            #[trigger] images@[j].region_x,
                            images@[j].region_y,
                            images@[j].region_width,
                            images@[j].region_height,
                        ),
                    decreases images.len() - i,
                {
                    if !images[i].has_complete_region() {
                        return false;
                    }
                    i += 1;
                }
                true
            },
            None => false,
        }
    }

    /// The captured images grouped by view type: one entry per view type
    /// that occurs, in order of first occurrence, each holding its images in
    /// record order.
    pub fn images_by_view_type(&self) -> (r: Vec<(ViewType, Vec<CapturedImage>)>)
        ensures
            forall|a: int, b: int| 0 <= a < b < r@.len() ==> r@[a].0 != r@[b].0,
            forall|g: int|
                0 <= g < r@.len() ==> #[trigger] r@[g].1@ == spec_images_with(
                    spec_captured(*self),
                    r@[g].0,
                ),
            forall|i: int|
                0 <= i < spec_captured(*self).len() ==> exists|g: int|
                    0 <= g < r@.len() && r@[g].0 == #[trigger] spec_captured(*self)[i].view_type,
    {
        let mut groups: Vec<(ViewType, Vec<CapturedImage>)> = Vec::new();
        match &self.captured_images {
            Some(images) => {
                let ghost all = images@;
                let mut i: usize = 0;
                while i < images.len()
                    invariant
                        i <= images.len(),
                        all == spec_captured(*self),
                        images@ == all,
                        forall|a: int, b: int|
                            0 <= a < b < groups@.len() ==> groups@[a].0 != groups@[b].0,
                        forall|g: int|
                            0 <= g < groups@.len() ==> #[trigger] groups@[g].1@ == spec_images_with(
                                all,
                                groups@[g].0,
                            ),
                        forall|j: int|
                            0 <= j < i ==> exists|g: int|
                                0 <= g < groups@.len() && groups@[g].0 == #[trigger] all[j].view_type,
                    decreases images.len() - i,
                {
                    let view = images[i].view_type;
                    match find_group(&groups, view) {
                        Some(g) => {
                            proof {
                                assert(groups@[g as int].0 == all[i as int].view_type);
                            }
                        },
                        None => {
                            let mut fresh: Vec<CapturedImage> = Vec::new();
                            let mut j: usize = 0;
                            while j < images.len()
                                invariant
                                    j <= images.len(),
                                    images@ == all,
                                    fresh@ == spec_images_with(all.take(j as int), view),
                                decreases images.len() - j,
                            {
                                proof {
                                    assert(all.take(j + 1).drop_last() =~= all.take(j as int));
                                    assert(all.take(j + 1).last() == all[j as int]);
                                }
                                if images[j].view_type == view {
                                    fresh.push(images[j].clone());
                                }
                                j += 1;
                            }
                            proof {
                                assert(all.take(images@.len() as int) =~= all);
                            }
                            let ghost groups0 = groups@;
                            groups.push((view, fresh));
                            proof {
                                assert forall|j: int| 0 <= j < i implies exists|g: int|
                                    0 <= g < groups@.len() && groups@[g].0
                                        == #[trigger] all[j].view_type by {
                                    let g0 = choose|g0: int|
                                        0 <= g0 < groups0.len() && groups0[g0].0
                                            == all[j].view_type;
                                    assert(groups@[g0].0 == all[j].view_type);
                                }
                                assert(groups@[groups@.len() - 1].0 == all[i as int].view_type);
                            }
                        },
                    }
                    i += 1;
                }
                proof {
                    assert forall|j: int| 0 <= j < spec_captured(*self).len() implies exists|g: int|
                        0 <= g < groups@.len() && groups@[g].0 == #[trigger] spec_captured(
                            *self,
                        )[j].view_type by {
                        let g0 = choose|g0: int|
                            0 <= g0 < groups@.len() && groups@[g0].0 == all[j].view_type;
                        assert(groups@[g0].0 == spec_captured(*self)[j].view_type);
                    }
                }
            },
            None => {},
        }
        groups
    }
}

/// Find the group whose view type is `view`, if one exists.
fn find_group(groups: &Vec<(ViewType, Vec<CapturedImage>)>, view: ViewType) -> (r: Option<usize>)
    ensures
        match r {
            Some(g) => g < groups@.len() && groups@[g as int].0 == view,
            None => forall|k: int| 0 <= k < groups@.len() ==> groups@[k].0 != view,
        },
{
    let mut g: usize = 0;
    while g < groups.len()
        invariant
            g <= groups@.len(),
            forall|k: int| 0 <= k < g ==> groups@[k].0 != view,
        decreases groups@.len() - g,
    {
        if groups[g].0 == view {
            return Some(g);
        }
        g += 1;
    }
    None
}

impl Default for Shell {
    /// An empty shell record, stamped with the current time and included in
    /// training by default.
    fn default() -> (r: Self)
        ensures
            r.brand@ == Seq::<char>::empty(),
            r.shell_type@ == Seq::<char>::empty(),
            r.image_filenames@ == Seq::<String>::empty(),
            r.captured_images is None,
            r.include_in_training == true,
    {
        Shell {
            date_captured: now_epoch_secs(),
            brand: String::new(),
            shell_type: String::new(),
            image_filenames: Vec::new(),
            captured_images: None,
            include_in_training: true,
        }
    }
}

/// Relies on std::time::SystemTime::now for the capture timestamp; the
/// result depends on the wall clock, so nothing is promised of it.
#[verifier::external_body]
fn now_epoch_secs() -> u64 {
    std::time::SystemTime::now()
        .duration_since(std::time::UNIX_EPOCH)
        .map(|d| d.as_secs())
        .unwrap_or(0)
}

/// Owner of the shell-record file layout under one data directory.
///
/// Reading and writing the files themselves is plain file I/O done outside
/// the core; this type fixes the directory and the file-name convention.
pub struct ShellDataManager {
    data_directory: String,
}

impl ShellDataManager {
    /// Create a new shell data manager rooted at `data_directory`.
    pub fn new(data_directory: String) -> (r: Self)
        ensures
            r.directory()@ == data_directory@,
    {
        ShellDataManager { data_directory }
    }

    /// The data directory this manager is rooted at.
    pub closed spec fn directory(&self) -> String {
        self.data_directory
    }

    /// The path of the record file for `session_id`:
    /// `<data_directory>/<session_id>.json`.
    pub fn shell_file_path(&self, session_id: &str) -> (r: String)
        ensures
            r@ == self.directory()@ + "/"@ + session_id@ + ".json"@,
    {
        self.data_directory.clone().concat("/").concat(session_id).concat(".json")
    }

    /// Generate a fresh session id for shell data.
    ///
    /// Relies on uuid::Uuid::new_v4; the result is random, so nothing is
    /// promised of it.
    #[verifier::external_body]
    pub fn generate_session_id() -> String {
        uuid::Uuid::new_v4().to_string()
    }
}

} // verus!
