//! One request, from decoded fragments to the host output: decrypt every
//! fragment once, render at the baseline tier, record the entitlement, and
//! render the copyable layout only where the viewer could be promoted.
use vstd::prelude::*;
use crate::fragment::{FragmentView, Params, decrypt_info, decrypted_all, fragments_view};
use crate::page::{
    CanvasAttributes, NodeView, Page, RenderError, canvas_nodes, editable_free, has_surface, image_nodes,
    images_follow_surfaces, overlay_nodes,
};
use crate::viewer::{FreePlan, ResolutionUnavailable, User, resolved_tier};

verus! {

/// The output of a request whose decrypted fragments are `texts`, drawn on
/// the surface `id` of the given size, for a viewer of entitlement `tier`.
pub open spec fn request_page(
    texts: Seq<FragmentView>,
    id: Seq<char>,
    width: u32,
    height: u32,
    tier: usize,
) -> Seq<NodeView> {
    let baseline = canvas_nodes(id, width, height, texts) + image_nodes(id, width, height);
    if tier > 0 {
        baseline + overlay_nodes(width, height, texts)
    } else {
        baseline
    }
}

/// Renders one request: its fragments are decrypted once, flattened onto the
/// surface `attrs` and snapshot into an image; `resolution`, the outcome of
/// the entitlement lookup for the request's token, decides whether they are
/// also laid out as copyable elements.
pub fn encrypt_canvas(
    params: Params,
    attrs: &CanvasAttributes,
    resolution: Result<usize, ResolutionUnavailable>,
) -> (r: Result<Page, RenderError>)
    ensures
        r matches Ok(page) && page@ == request_page(
            decrypted_all(fragments_view(params.render_info@)),
            attrs.id@,
            attrs.width,
            attrs.height,
            resolved_tier(resolution),
        ),
{
    let Params { render_info, user_token } = params;
    let mut render_info = render_info;
    decrypt_info(&mut render_info);
    let mut user = User::<FreePlan>::new(user_token, 0, render_info);
    let mut page = Page::new();
    user.render_as_canvas(&mut page, attrs);
    user.render_as_img(&mut page, attrs)?;
    user.fetch_vip_level(resolution);
    match user.promote() {
        Ok(vip_user) => {
            vip_user.render_as_div(&mut page, attrs);
        },
        Err(_) => {},
    }
    Ok(page)
}

/// A request yields copyable output exactly when its viewer's entitlement
/// tier is positive: at tier 0 only the raster surface and its image appear.
pub proof fn lemma_request_editable_only_when_entitled(
    texts: Seq<FragmentView>,
    id: Seq<char>,
    width: u32,
    height: u32,
    tier: usize,
)
    ensures
        editable_free(request_page(texts, id, width, height, tier)) <==> tier == 0,
{
    let p = request_page(texts, id, width, height, tier);
    if tier > 0 {
        assert(p[5] == overlay_nodes(width, height, texts)[1]);
    } else {
        assert forall|i: int| 0 <= i < p.len() implies !(#[trigger] p[i] is Overlay) by {
            assert(i < 4);
        }
    }
}

/// In every request's output the image comes after the surface it
/// snapshots.
pub proof fn lemma_request_image_follows_surface(
    texts: Seq<FragmentView>,
    id: Seq<char>,
    width: u32,
    height: u32,
    tier: usize,
)
    ensures
        images_follow_surfaces(request_page(texts, id, width, height, tier)),
{
    let p = request_page(texts, id, width, height, tier);
    assert forall|i: int| 0 <= i < p.len() && (#[trigger] p[i] is Image) implies has_surface(
        p.subrange(0, i),
        p[i]->source,
    ) by {
        assert(i == 3);
        assert(p.subrange(0, i)[1] == p[1]);
    }
}

} // verus!
