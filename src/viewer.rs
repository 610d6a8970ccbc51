//! The capability-gated renderer. A viewer carries its plan in its type:
//! `User<FreePlan>` can only flatten the fragments onto a raster surface and
//! snapshot that surface into an image; `User<VipPlan>` can in addition lay
//! them out as copyable elements. The only way to obtain a `User<VipPlan>` is
//! `promote`, which succeeds only for a positive entitlement tier.
use vstd::prelude::*;
use std::marker::PhantomData;
use crate::fragment::{FragmentView, RenderString, fragments_view, duplicate_all};
use crate::page::{
    CanvasAttributes, Caption, Node, Page, RenderError, canvas_nodes, has_surface, image_nodes,
    overlay_nodes,
};

verus! {

/// A capability plan, carried as a type parameter of a viewer.
pub trait Plan {
    /// Whether viewers of this plan may produce copyable output.
    spec fn elevated() -> bool;
}

/// The baseline plan, which every viewer starts on.
pub struct FreePlan;

/// The elevated plan, reached only through `promote`.
pub struct VipPlan;

impl Plan for FreePlan {
    open spec fn elevated() -> bool {
        false
    }
}

impl Plan for VipPlan {
    open spec fn elevated() -> bool {
        true
    }
}

/// The entitlement lookup did not answer, or answered too late.
#[derive(Clone, Copy, Debug, PartialEq, Eq, Structural)]
pub struct ResolutionUnavailable;

/// The tier that the outcome of a lookup grants: a failed lookup grants the
/// baseline tier.
pub open spec fn resolved_tier(r: Result<usize, ResolutionUnavailable>) -> usize {
    match r {
        Ok(n) => n,
        Err(_) => 0,
    }
}

/// The tier that the stand-in lookup grants to every token.
pub const DEFAULT_VIP_LEVEL: usize = 3;

/// The entitlement lookup of this library: a synchronous stand-in for a
/// remote service, which grants every token the same tier.
pub fn resolve(_user_token: &String) -> (r: Result<usize, ResolutionUnavailable>)
    ensures
        r == Ok::<usize, ResolutionUnavailable>(DEFAULT_VIP_LEVEL),
{
    Ok(DEFAULT_VIP_LEVEL)
}

/// A viewer of one request's fragments, on the plan `P`.
pub struct User<P: Plan> {
    user_token: String,
    vip_level: usize,
    info: Vec<RenderString>,
    _plan: PhantomData<P>,
}

impl<P: Plan> User<P> {
    /// A viewer on an elevated plan always holds a positive tier.
    #[verifier::type_invariant]
    spec fn inv(self) -> bool {
        P::elevated() ==> self.vip_level > 0
    }

    /// The caller token.
    pub closed spec fn token(self) -> Seq<char> {
        self.user_token@
    }

    /// The entitlement tier.
    pub closed spec fn level(self) -> usize {
        self.vip_level
    }

    /// The fragments, in order.
    pub closed spec fn fragments(self) -> Seq<FragmentView> {
        fragments_view(self.info@)
    }

    /// The entitlement tier; positive on an elevated plan.
    pub fn get_vip_level(&self) -> (r: usize)
        ensures
            r == self.level(),
            P::elevated() ==> r > 0,
    {
        proof {
            use_type_invariant(self);
        }
        self.vip_level
    }

    /// Draws every fragment onto a raster surface whose text cannot be
    /// copied, and appends a caption and the surface.
    pub fn render_as_canvas(&self, page: &mut Page, attrs: &CanvasAttributes)
        ensures
            final(page)@ == old(page)@ + canvas_nodes(
                attrs.id@,
                attrs.width,
                attrs.height,
                self.fragments(),
            ),
    {
        page.push(Node::Caption(Caption::Canvas));
        page.push(
            Node::Canvas {
                id: attrs.id.clone(),
                width: attrs.width,
                height: attrs.height,
                texts: duplicate_all(&self.info),
            },
        );
        assert(page@ =~= old(page)@ + canvas_nodes(
            attrs.id@,
            attrs.width,
            attrs.height,
            self.fragments(),
        ));
    }

    /// Snapshots the raster surface addressed by `attrs.id` into a static
    /// image, and appends a caption and the image. Fails, appending nothing,
    /// where no such surface has been drawn.
    pub fn render_as_img(&self, page: &mut Page, attrs: &CanvasAttributes) -> (r: Result<
        (),
        RenderError,
    >)
        ensures
            r is Ok <==> has_surface(old(page)@, attrs.id@),
            r is Ok ==> final(page)@ == old(page)@ + image_nodes(
                attrs.id@,
                attrs.width,
                attrs.height,
            ),
            r is Err ==> r == Err::<(), RenderError>(RenderError::MissingSurface) && final(page)@
                == old(page)@,
    {
        if !page.contains_surface(&attrs.id) {
            return Err(RenderError::MissingSurface);
        }
        page.push(Node::Caption(Caption::Image));
        page.push(Node::Image { source: attrs.id.clone(), width: attrs.width, height: attrs.height });
        assert(page@ =~= old(page)@ + image_nodes(attrs.id@, attrs.width, attrs.height));
        Ok(())
    }
}

impl User<FreePlan> {
    /// A viewer on the baseline plan.
    pub fn new(user_token: String, vip_level: usize, info: Vec<RenderString>) -> (r: Self)
        ensures
            r.token() == user_token@,
            r.level() == vip_level,
            r.fragments() == fragments_view(info@),
    {
        User { user_token, vip_level, info, _plan: PhantomData }
    }

    /// Sets the entitlement tier.
    pub fn set_vip_level(&mut self, vip_level: usize)
        ensures
            final(self).level() == vip_level,
            final(self).token() == old(self).token(),
            final(self).fragments() == old(self).fragments(),
    {
        self.vip_level = vip_level;
    }

    /// Records the outcome of the entitlement lookup for this viewer's token:
    /// the tier it granted, or the baseline tier where it failed.
    pub fn fetch_vip_level(&mut self, resolution: Result<usize, ResolutionUnavailable>)
        ensures
            final(self).level() == resolved_tier(resolution),
            final(self).token() == old(self).token(),
            final(self).fragments() == old(self).fragments(),
    {
        let vip_level: usize = match resolution {
            Ok(n) => n,
            Err(_) => 0,
        };
        self.set_vip_level(vip_level);
    }

    /// Moves the viewer onto the elevated plan, keeping its token, tier and
    /// fragments, where its tier is positive; hands it back unchanged
    /// otherwise.
    pub fn promote(self) -> (r: Result<User<VipPlan>, User<FreePlan>>)
        ensures
            r is Ok <==> self.level() > 0,
            r matches Ok(v) ==> v.token() == self.token() && v.level() == self.level()
                && v.fragments() == self.fragments(),
            r matches Err(u) ==> u == self,
    {
        if self.vip_level > 0 {
            Ok(User { user_token: self.user_token, vip_level: self.vip_level, info: self.info, _plan: PhantomData })
        } else {
            Err(self)
        }
    }
}

impl User<VipPlan> {
    /// Lays every fragment out as its own absolutely positioned element,
    /// whose text can be selected and copied, inside a sized wrapper, and
    /// appends a caption and the wrapper.
    pub fn render_as_div(&self, page: &mut Page, attrs: &CanvasAttributes)
        ensures
            final(page)@ == old(page)@ + overlay_nodes(attrs.width, attrs.height, self.fragments()),
    {
        page.push(Node::Caption(Caption::Overlay));
        page.push(
            Node::Overlay {
                width: attrs.width,
                height: attrs.height,
                items: duplicate_all(&self.info),
            },
        );
        assert(page@ =~= old(page)@ + overlay_nodes(attrs.width, attrs.height, self.fragments()));
    }
}

} // verus!
