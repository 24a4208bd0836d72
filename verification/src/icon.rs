//! The icon composer: turns an arbitrary raster image into the packed
//! multi-resolution icon container, through a scratch iconset directory.
//! The packing step is offered only once all ten resized assets exist;
//! the scratch directory is removed on every path, success or failure.

use vstd::prelude::*;
use vstd::string::*;
use crate::event::{Event, opt_view, is_op_event, event_diag};
use crate::text::{concat2, str_chars};

verus! {

/// One entry of the fixed icon plan: a square pixel dimension, its decimal
/// label, and the file name the resized asset must carry.
pub struct IconSizeEntry {
    pub dim: u32,
    pub dim_label: String,
    pub file_name: String,
}

/// The pixel dimension of the plan entry at `i`.
pub open spec fn icon_dim(i: int) -> u32 {
    if i == 0 {
        16
    } else if i == 1 {
        32
    } else if i == 2 {
        32
    } else if i == 3 {
        64
    } else if i == 4 {
        128
    } else if i == 5 {
        256
    } else if i == 6 {
        256
    } else if i == 7 {
        512
    } else if i == 8 {
        512
    } else {
        1024
    }
}

/// The decimal label of the plan entry at `i`.
pub open spec fn icon_dim_label(i: int) -> Seq<char> {
    if i == 0 {
        "16"@
    } else if i == 1 {
        "32"@
    } else if i == 2 {
        "32"@
    } else if i == 3 {
        "64"@
    } else if i == 4 {
        "128"@
    } else if i == 5 {
        "256"@
    } else if i == 6 {
        "256"@
    } else if i == 7 {
        "512"@
    } else if i == 8 {
        "512"@
    } else {
        "1024"@
    }
}

/// The asset file name of the plan entry at `i`.
pub open spec fn icon_file_name(i: int) -> Seq<char> {
    if i == 0 {
        "icon_16x16.png"@
    } else if i == 1 {
        "icon_16x16@2x.png"@
    } else if i == 2 {
        "icon_32x32.png"@
    } else if i == 3 {
        "icon_32x32@2x.png"@
    } else if i == 4 {
        "icon_128x128.png"@
    } else if i == 5 {
        "icon_128x128@2x.png"@
    } else if i == 6 {
        "icon_256x256.png"@
    } else if i == 7 {
        "icon_256x256@2x.png"@
    } else if i == 8 {
        "icon_512x512.png"@
    } else {
        "icon_512x512@2x.png"@
    }
}

/// The plan entry at `i`.
pub fn icon_entry(i: usize) -> (e: IconSizeEntry)
    requires
        i < 10,
    ensures
        e.dim == icon_dim(i as int),
        e.dim_label@ == icon_dim_label(i as int),
        e.file_name@ == icon_file_name(i as int),
{
    if i == 0 {
        IconSizeEntry { dim: 16, dim_label: "16".to_owned(), file_name: "icon_16x16.png".to_owned() }
    } else if i == 1 {
        IconSizeEntry { dim: 32, dim_label: "32".to_owned(), file_name: "icon_16x16@2x.png".to_owned() }
    } else if i == 2 {
        IconSizeEntry { dim: 32, dim_label: "32".to_owned(), file_name: "icon_32x32.png".to_owned() }
    } else if i == 3 {
        IconSizeEntry { dim: 64, dim_label: "64".to_owned(), file_name: "icon_32x32@2x.png".to_owned() }
    } else if i == 4 {
        IconSizeEntry { dim: 128, dim_label: "128".to_owned(), file_name: "icon_128x128.png".to_owned() }
    } else if i == 5 {
        IconSizeEntry { dim: 256, dim_label: "256".to_owned(), file_name: "icon_128x128@2x.png".to_owned() }
    } else if i == 6 {
        IconSizeEntry { dim: 256, dim_label: "256".to_owned(), file_name: "icon_256x256.png".to_owned() }
    } else if i == 7 {
        IconSizeEntry { dim: 512, dim_label: "512".to_owned(), file_name: "icon_256x256@2x.png".to_owned() }
    } else if i == 8 {
        IconSizeEntry { dim: 512, dim_label: "512".to_owned(), file_name: "icon_512x512.png".to_owned() }
    } else {
        IconSizeEntry { dim: 1024, dim_label: "1024".to_owned(), file_name: "icon_512x512@2x.png".to_owned() }
    }
}

/// The whole fixed plan, in order.
pub fn icon_sizes() -> (v: Vec<IconSizeEntry>)
    ensures
        v@.len() == 10,
        forall|i: int|
            0 <= i < 10 ==> (#[trigger] v@[i]).dim == icon_dim(i) && v@[i].dim_label@
                == icon_dim_label(i) && v@[i].file_name@ == icon_file_name(i),
{
    let mut v: Vec<IconSizeEntry> = Vec::new();
    let mut i: usize = 0;
    while i < 10
        invariant
            i <= 10,
            v@.len() == i,
            forall|k: int|
                0 <= k < i ==> (#[trigger] v@[k]).dim == icon_dim(k) && v@[k].dim_label@
                    == icon_dim_label(k) && v@[k].file_name@ == icon_file_name(k),
        decreases 10 - i,
    {
        v.push(icon_entry(i));
        i += 1;
    }
    v
}

/// Whether a path carries a `webp` extension, compared without regard to
/// ASCII case: the file name's last dot is followed by exactly `webp`, and
/// the dot neither starts the file name nor follows a path separator.
pub open spec fn is_webp_spec(p: Seq<char>) -> bool {
    p.len() >= 6 && p[p.len() - 5] == '.' && p[p.len() - 6] != '/' && webp_chars(
        p.subrange(p.len() - 4, p.len() as int),
    )
}

/// The four characters spell `webp`, in either ASCII case.
pub open spec fn webp_chars(e: Seq<char>) -> bool {
    e.len() == 4 && (e[0] == 'w' || e[0] == 'W') && (e[1] == 'e' || e[1] == 'E') && (e[2]
        == 'b' || e[2] == 'B') && (e[3] == 'p' || e[3] == 'P')
}

/// Decides whether the source image needs the pre-conversion step.
pub fn is_webp_path(path: &str) -> (r: bool)
    ensures
        r == is_webp_spec(path@),
{
    let cs = str_chars(path);
    let n = cs.len();
    if n < 6 {
        return false;
    }
    if cs[n - 5] != '.' || cs[n - 6] == '/' {
        return false;
    }
    let c0 = cs[n - 4];
    let c1 = cs[n - 3];
    let c2 = cs[n - 2];
    let c3 = cs[n - 1];
    let hit = (c0 == 'w' || c0 == 'W') && (c1 == 'e' || c1 == 'E') && (c2 == 'b' || c2
        == 'B') && (c3 == 'p' || c3 == 'P');
    proof {
        let e = path@.subrange(n - 4, n as int);
        assert(e[0] == path@[n - 4] && e[1] == path@[n - 3] && e[2] == path@[n - 2] && e[3]
            == path@[n - 1]);
    }
    hit
}

/// Where the icon composer stands.
pub enum IconStage {
    /// The scratch iconset directory is being created.
    CreatingScratch,
    /// The source image is being pre-converted to a natively resizable format.
    Converting,
    /// The resized assets are being produced, one per plan entry.
    Resizing,
    /// The scratch directory is being folded into the icon container.
    Packing,
    /// The scratch directory is being removed, success or failure alike.
    CleaningScratch,
    /// The throwaway converted source file is being removed.
    RemovingConverted,
    /// The icon container exists at its destination.
    Done,
    /// Composition failed; the failure message is set.
    Failed,
}

/// The operation the composer asks for next.
pub enum IconWork {
    CreateScratch,
    ConvertSource,
    Resize { index: usize },
    Pack,
    RemoveScratch,
    RemoveConverted,
    Finished,
}

/// The icon composer state machine.
pub struct IconComposer {
    pub stage: IconStage,
    /// The source image needs a pre-conversion step before resizing.
    pub source_is_webp: bool,
    /// The throwaway converted file has been written.
    pub converted: bool,
    /// How many resized assets have been produced so far.
    pub resized: usize,
    /// A failure to surface once the scratch directory has been removed.
    pub pending_error: Option<String>,
    /// The terminal failure message.
    pub failure: Option<String>,
}

impl IconComposer {
    /// The composer's internal invariant.
    pub open spec fn wf(self) -> bool {
        &&& self.resized <= 10
        &&& (self.converted ==> self.source_is_webp)
        &&& match self.stage {
            IconStage::CreatingScratch => self.resized == 0 && !self.converted
                && self.pending_error is None && self.failure is None,
            IconStage::Converting => self.source_is_webp && self.resized == 0 && !self.converted
                && self.pending_error is None && self.failure is None,
            IconStage::Resizing => self.resized < 10 && self.pending_error is None
                && self.failure is None,
            IconStage::Packing => self.resized == 10 && self.pending_error is None
                && self.failure is None,
            IconStage::CleaningScratch => self.failure is None && (self.pending_error is None
                ==> self.resized == 10),
            IconStage::RemovingConverted => self.resized == 10 && self.converted
                && self.pending_error is None && self.failure is None,
            IconStage::Done => self.resized == 10 && self.pending_error is None
                && self.failure is None,
            IconStage::Failed => self.failure is Some,
        }
    }

    /// A fresh composer for a source image.
    pub fn new(source_is_webp: bool) -> (c: IconComposer)
        ensures
            c.wf(),
            c.stage is CreatingScratch,
            c.source_is_webp == source_is_webp,
    {
        IconComposer {
            stage: IconStage::CreatingScratch,
            source_is_webp,
            converted: false,
            resized: 0,
            pending_error: None,
            failure: None,
        }
    }

    /// The operation the composer asks for in its current state.
    pub open spec fn work_spec(self) -> IconWork {
        match self.stage {
            IconStage::CreatingScratch => IconWork::CreateScratch,
            IconStage::Converting => IconWork::ConvertSource,
            IconStage::Resizing => IconWork::Resize { index: self.resized },
            IconStage::Packing => IconWork::Pack,
            IconStage::CleaningScratch => IconWork::RemoveScratch,
            IconStage::RemovingConverted => IconWork::RemoveConverted,
            IconStage::Done => IconWork::Finished,
            IconStage::Failed => IconWork::Finished,
        }
    }

    /// What the composer asks the surrounding program to do next.
    pub fn work(&self) -> (w: IconWork)
        ensures
            w == self.work_spec(),
    {
        match self.stage {
            IconStage::CreatingScratch => IconWork::CreateScratch,
            IconStage::Converting => IconWork::ConvertSource,
            IconStage::Resizing => IconWork::Resize { index: self.resized },
            IconStage::Packing => IconWork::Pack,
            IconStage::CleaningScratch => IconWork::RemoveScratch,
            IconStage::RemovingConverted => IconWork::RemoveConverted,
            IconStage::Done => IconWork::Finished,
            IconStage::Failed => IconWork::Finished,
        }
    }

    /// Feeds the outcome of the requested operation back into the composer.
    /// A probe answer meant for another machine is ignored.
    pub fn step(&mut self, ev: &Event)
        requires
            old(self).wf(),
            !(old(self).stage is Done),
            !(old(self).stage is Failed),
        ensures
            final(self).wf(),
            final(self).source_is_webp == old(self).source_is_webp,
            !is_op_event(*ev) ==> final(self).stage == old(self).stage && final(self).resized == old(
                self,
            ).resized && final(self).converted == old(self).converted && opt_view(final(self).pending_error)
                == opt_view(old(self).pending_error) && opt_view(final(self).failure) == opt_view(
                old(self).failure,
            ),
            is_op_event(*ev) ==> icon_next(*old(self), *ev, *final(self)),
    {
        match ev {
            Event::PathsChecked(..) => {
                return ;
            },
            Event::DestinationChecked(..) => {
                return ;
            },
            _ => {},
        }
        match self.stage {
            IconStage::CreatingScratch => {
                match ev {
                    Event::Completed => {
                        if self.source_is_webp {
                            self.stage = IconStage::Converting;
                        } else {
                            self.stage = IconStage::Resizing;
                        }
                    },
                    Event::IoFailed(e) => {
                        self.failure = Some(
                            concat2("Failed to create iconset directory: ", e.as_str()),
                        );
                        self.stage = IconStage::Failed;
                    },
                    _ => {
                        proof {
                            reveal_strlit("");
                            assert(""@ =~= Seq::<char>::empty());
                        }
                        self.failure = Some(
                            concat2("Failed to create iconset directory: ", ""),
                        );
                        self.stage = IconStage::Failed;
                    },
                }
            },
            IconStage::Converting => {
                match ev {
                    Event::Completed => {
                        self.converted = true;
                        self.stage = IconStage::Resizing;
                    },
                    Event::ToolFailed => {
                        self.pending_error = Some("Failed to convert WebP to PNG".to_owned());
                        self.stage = IconStage::CleaningScratch;
                    },
                    Event::IoFailed(e) => {
                        self.pending_error = Some(
                            concat2("Failed to convert WebP: ", e.as_str()),
                        );
                        self.stage = IconStage::CleaningScratch;
                    },
                    _ => {},
                }
            },
            IconStage::Resizing => {
                match ev {
                    Event::Completed => {
                        self.resized = self.resized + 1;
                        if self.resized == 10 {
                            self.stage = IconStage::Packing;
                        }
                    },
                    Event::ToolFailed => {
                        let entry = icon_entry(self.resized);
                        self.pending_error = Some(
                            concat2("sips failed for size ", entry.dim_label.as_str()),
                        );
                        self.stage = IconStage::CleaningScratch;
                    },
                    Event::IoFailed(e) => {
                        self.pending_error = Some(concat2("Failed to run sips: ", e.as_str()));
                        self.stage = IconStage::CleaningScratch;
                    },
                    _ => {},
                }
            },
            IconStage::Packing => {
                match ev {
                    Event::Completed => {
                        self.stage = IconStage::CleaningScratch;
                    },
                    Event::ToolFailed => {
                        self.pending_error = Some("iconutil failed".to_owned());
                        self.stage = IconStage::CleaningScratch;
                    },
                    Event::IoFailed(e) => {
                        self.pending_error = Some(
                            concat2("Failed to run iconutil: ", e.as_str()),
                        );
                        self.stage = IconStage::CleaningScratch;
                    },
                    _ => {},
                }
            },
            IconStage::CleaningScratch => {
                let msg: Option<String> = match &self.pending_error {
                    Some(m) => Some(m.clone()),
                    None => None,
                };
                match msg {
                    Some(m) => {
                        self.failure = Some(m);
                        self.stage = IconStage::Failed;
                    },
                    None => {
                        if self.converted {
                            self.stage = IconStage::RemovingConverted;
                        } else {
                            self.stage = IconStage::Done;
                        }
                    },
                }
            },
            IconStage::RemovingConverted => {
                self.stage = IconStage::Done;
            },
            IconStage::Done => {},
            IconStage::Failed => {},
        }
    }
}

/// The composer's transition relation for an operation event.
pub open spec fn icon_next(pre: IconComposer, ev: Event, post: IconComposer) -> bool {
    match pre.stage {
                IconStage::CreatingScratch => match ev {
                    Event::Completed => (if pre.source_is_webp {
                        post.stage is Converting
                    } else {
                        post.stage is Resizing
                    }) && post.resized == 0 && !post.converted,
                    _ => post.stage is Failed && opt_view(post.failure) == Some(
                        "Failed to create iconset directory: "@ + event_diag(ev),
                    ),
                },
                IconStage::Converting => match ev {
                    Event::Completed => post.stage is Resizing && post.converted && post.resized
                        == 0,
                    Event::ToolFailed => post.stage is CleaningScratch && opt_view(
                        post.pending_error,
                    ) == Some("Failed to convert WebP to PNG"@) && !post.converted,
                    _ => post.stage is CleaningScratch && opt_view(post.pending_error) == Some(
                        "Failed to convert WebP: "@ + event_diag(ev),
                    ) && !post.converted,
                },
                IconStage::Resizing => match ev {
                    Event::Completed => post.resized == pre.resized + 1 && post.converted
                        == pre.converted && (if post.resized == 10 {
                        post.stage is Packing
                    } else {
                        post.stage is Resizing
                    }),
                    Event::ToolFailed => post.stage is CleaningScratch && opt_view(
                        post.pending_error,
                    ) == Some("sips failed for size "@ + icon_dim_label(pre.resized as int))
                        && post.converted == pre.converted,
                    _ => post.stage is CleaningScratch && opt_view(post.pending_error) == Some(
                        "Failed to run sips: "@ + event_diag(ev),
                    ) && post.converted == pre.converted,
                },
                IconStage::Packing => match ev {
                    Event::Completed => post.stage is CleaningScratch && post.pending_error
                        is None && post.converted == pre.converted,
                    Event::ToolFailed => post.stage is CleaningScratch && opt_view(
                        post.pending_error,
                    ) == Some("iconutil failed"@) && post.converted == pre.converted,
                    _ => post.stage is CleaningScratch && opt_view(post.pending_error) == Some(
                        "Failed to run iconutil: "@ + event_diag(ev),
                    ) && post.converted == pre.converted,
                },
                IconStage::CleaningScratch => match pre.pending_error {
                    Some(_) => post.stage is Failed && opt_view(post.failure) == opt_view(
                        pre.pending_error,
                    ),
                    None => if pre.converted {
                        post.stage is RemovingConverted
                    } else {
                        post.stage is Done
                    },
                },
                IconStage::RemovingConverted => post.stage is Done,
                IconStage::Done => false,
                IconStage::Failed => false,
            }
}

/// The packing step is offered only when every one of the ten resized
/// assets has been produced.
pub proof fn lemma_pack_needs_all_assets(c: IconComposer)
    requires
        c.wf(),
        c.work_spec() is Pack,
    ensures
        c.resized == 10,
{
}

/// A composer that is cleaning up after a failure, or has failed, never
/// offers the packing step.
pub proof fn lemma_failure_prevents_packing(c: IconComposer)
    requires
        c.wf(),
        c.pending_error is Some || c.failure is Some,
    ensures
        !(c.work_spec() is Pack),
{
}

} // verus!
