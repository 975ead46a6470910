use scene_graph::bbox::{check_bbox_bbox_intersection, check_point_bbox_intersection, Aabb};
use scene_graph::payload::Payload;
use scene_graph::scene::{DrawCall, SceneNode};
use scene_graph::transform::{Transform, Vec3};

fn v(x: i64, y: i64, z: i64) -> Vec3 {
    Vec3::new(x, y, z)
}

/// A unit cube spanning [-0.5, 0.5]^3 in tenths-of-a-unit fixed point.
fn cube_payload(tag: u64) -> Payload {
    Payload::new(tag, 0, v(0, 0, 0), v(0, 0, 0), 16, v(-5, -5, -5), v(5, 5, 5))
}

#[test]
fn compose_applies_second_then_first() {
    // T1 translates, T2 scales: compose(T1, T2) must scale first, then
    // translate.
    let t1 = Transform::translate(3, 4, 5);
    let t2 = Transform::scale(2, 2, 2);
    let p = v(1, 2, 3);
    let composed = t1.compose(&t2);
    assert_eq!(composed.apply(&p), t1.apply(&t2.apply(&p)));
    assert_eq!(composed.apply(&p), v(5, 8, 11));
    // The other order gives a different point, so the order is really fixed.
    let other = t2.compose(&t1);
    assert_eq!(other.apply(&p), v(8, 12, 16));
}

#[test]
fn transform_constructors_exact() {
    let id = Transform::identity();
    assert_eq!(id.apply(&v(7, -8, 9)), v(7, -8, 9));
    let tr = Transform::translate(1, 2, 3);
    assert_eq!(tr.apply(&v(0, 0, 0)), v(1, 2, 3));
    let sc = Transform::scale(2, 0, -1);
    assert_eq!(sc.apply(&v(5, 5, 5)), v(10, 0, -5));
}

#[test]
fn try_compose_reports_overflow() {
    let big = Transform::scale(i64::MAX, 1, 1);
    let double = Transform::scale(2, 1, 1);
    assert!(big.try_compose(&double).is_none());
    assert_eq!(
        Transform::translate(1, 1, 1).try_compose(&Transform::translate(2, 2, 2)),
        Some(Transform::translate(3, 3, 3))
    );
}

#[test]
fn try_apply_reports_overflow() {
    let big = Transform::scale(i64::MAX, 1, 1);
    assert!(big.try_apply(&v(3, 0, 0)).is_none());
    assert_eq!(big.try_apply(&v(1, 0, 0)), Some(v(i64::MAX, 0, 0)));
}

#[test]
fn leaf_draw_emits_single_call() {
    let p = cube_payload(1);
    let leaf = SceneNode::leaf(p).translate(10, 0, 0);
    let id = Transform::identity();
    assert!(leaf.transforms_fit(&id));
    let calls = leaf.draw(&id);
    assert_eq!(
        calls,
        vec![DrawCall { transform: Transform::translate(10, 0, 0), payload: p }]
    );
}

#[test]
fn attach_emits_parent_then_child() {
    let pa = cube_payload(1);
    let pb = cube_payload(2);
    let make_a = || SceneNode::leaf(pa).translate(10, 0, 0);
    let make_b = || SceneNode::leaf(pb).translate(1, 2, 3);
    let id = Transform::identity();

    let a_alone = make_a().draw(&id);
    let r = make_a().attach(make_b());
    let calls = r.draw(&id);

    // Parent's own emission first, then the child's, one level deeper:
    // the child's world transform accumulates the parent's.
    let mut expected = a_alone.clone();
    expected.push(DrawCall { transform: Transform::translate(11, 2, 3), payload: pb });
    assert_eq!(calls, expected);
}

#[test]
fn attach_flattens_like_attach_many() {
    let pa = cube_payload(1);
    let pb = cube_payload(2);
    let pc = cube_payload(3);
    let make_a = || SceneNode::leaf(pa).translate(10, 0, 0);
    let make_b = || SceneNode::leaf(pb).translate(1, 0, 0);
    let make_c = || SceneNode::leaf(pc).translate(0, 1, 0);
    let id = Transform::identity();

    let one_at_a_time = make_a().attach(make_b()).attach(make_c()).draw(&id);
    let at_once = make_a().attach_many(vec![make_b(), make_c()]).draw(&id);
    assert_eq!(one_at_a_time, at_once);
    assert_eq!(one_at_a_time.len(), 3);
}

#[test]
fn attach_many_empty_changes_nothing() {
    let pa = cube_payload(1);
    let id = Transform::identity();
    let plain = SceneNode::leaf(pa).draw(&id);
    let attached = SceneNode::leaf(pa).attach_many(vec![]).draw(&id);
    assert_eq!(plain, attached);
}

#[test]
fn attach_leaves_the_original_alone() {
    let pa = cube_payload(1);
    let pb = cube_payload(2);
    let id = Transform::identity();
    let a = SceneNode::leaf(pa).translate(4, 4, 4);
    let before = a.draw(&id);

    // Compose a deep copy; `a` stays in hand, untouched.
    let combined = a.duplicate().attach(SceneNode::leaf(pb));
    assert_eq!(combined.draw(&id).len(), 2);

    let after = a.draw(&id);
    assert_eq!(before, after);
    assert_eq!(after.len(), 1);
    assert_eq!(after[0].payload, pa);
}

#[test]
fn duplicate_draws_identically() {
    let p1 = cube_payload(1);
    let p2 = cube_payload(2);
    let p3 = cube_payload(3);
    let id = Transform::identity();
    let inner = SceneNode::leaf(p2).translate(1, 2, 3).attach(SceneNode::leaf(p3));
    let tree = SceneNode::leaf(p1).scale(2, 2, 2).attach(inner);
    let copy = tree.duplicate();
    assert_eq!(tree.draw(&id), copy.draw(&id));
    assert_eq!(tree.world_bbox(), copy.world_bbox());
}

#[test]
fn nested_group_keeps_its_structure() {
    let p1 = cube_payload(1);
    let p2 = cube_payload(2);
    let p3 = cube_payload(3);
    let id = Transform::identity();
    // A group [p1 -> p2] attached under p3 stays one nested subtree.
    let inner = SceneNode::leaf(p1).translate(1, 0, 0).attach(SceneNode::leaf(p2));
    let outer = SceneNode::leaf(p3).translate(0, 0, 7).attach(inner);
    let calls = outer.draw(&id);
    assert_eq!(calls.len(), 3);
    assert_eq!(calls[0].payload, p3);
    assert_eq!(calls[1].payload, p1);
    assert_eq!(calls[2].payload, p2);
    // The inner group's transforms accumulate through both levels.
    assert_eq!(calls[1].transform, Transform::translate(1, 0, 7));
    assert_eq!(calls[2].transform, Transform::translate(1, 0, 7));
}

#[test]
fn payloadless_group_skips_emission_but_recurses() {
    let p1 = cube_payload(1);
    let p2 = cube_payload(2);
    let id = Transform::identity();
    let g = SceneNode::group(vec![SceneNode::leaf(p1), SceneNode::leaf(p2)]);
    let calls = g.draw(&id);
    assert_eq!(calls.len(), 2);
    assert_eq!(calls[0].payload, p1);
    assert_eq!(calls[1].payload, p2);
    // Queries that need a root payload report the lack of one.
    assert_eq!(g.get_bbox_min(), None);
    assert_eq!(g.get_bbox_max(), None);
    assert_eq!(g.world_bbox(), None);
    let other = SceneNode::leaf(p1);
    assert_eq!(g.check_intersection(&other), None);
    assert_eq!(other.check_intersection(&g), None);
}

#[test]
fn intersection_is_symmetric() {
    let p = cube_payload(1);
    let a = SceneNode::leaf(p);
    let touching = SceneNode::leaf(p).translate(10, 0, 0);
    let apart = SceneNode::leaf(p).translate(20, 0, 0);
    assert_eq!(a.check_intersection(&touching), touching.check_intersection(&a));
    assert_eq!(a.check_intersection(&apart), apart.check_intersection(&a));
}

#[test]
fn touching_boundary_counts_as_intersecting() {
    // Unit cubes in tenths: [-5,5]^3 and, translated by one unit,
    // [5,15] x [-5,5] x [-5,5]. Max-X of one equals min-X of the other.
    let p = cube_payload(1);
    let cube1 = SceneNode::leaf(p);
    let cube2 = SceneNode::leaf(p).translate(10, 0, 0);
    assert_eq!(cube1.check_intersection(&cube2), Some(true));
}

#[test]
fn disjoint_cubes_do_not_intersect() {
    let p = cube_payload(1);
    let cube1 = SceneNode::leaf(p);
    let cube2 = SceneNode::leaf(p).translate(20, 0, 0);
    assert_eq!(cube1.check_intersection(&cube2), Some(false));
}

#[test]
fn zero_scale_gives_point_box_at_translation() {
    let p = cube_payload(1);
    let id = Transform::identity();
    let n = SceneNode::leaf(p).translate(7, 8, 9).scale(0, 0, 0);
    // Traversal stays well-defined.
    assert!(n.transforms_fit(&id));
    assert_eq!(n.draw(&id).len(), 1);
    // The world box collapses to the translated origin.
    assert_eq!(n.world_bbox(), Some(Aabb { min: v(7, 8, 9), max: v(7, 8, 9) }));
    // A point box away from a cube misses it; inside it, it touches.
    let cube = SceneNode::leaf(p);
    assert_eq!(n.check_intersection(&cube), Some(false));
    let inside = SceneNode::leaf(p).translate(3, 0, 0).scale(0, 0, 0);
    assert_eq!(inside.check_intersection(&cube), Some(true));
}

#[test]
fn world_bbox_follows_the_transform() {
    let p = cube_payload(1);
    let n = SceneNode::leaf(p).translate(100, 0, 0).scale(2, 2, 2);
    assert_eq!(n.world_bbox(), Some(Aabb { min: v(90, -10, -10), max: v(110, 10, 10) }));
}

#[test]
fn material_builders_touch_only_their_field() {
    let p = cube_payload(1);
    let id = Transform::identity();
    let n = SceneNode::leaf(p)
        .with_texture(42)
        .with_specular_reflectance(&v(1, 2, 3))
        .with_specular_phong_q(64)
        .with_color(&v(9, 9, 9));
    let calls = n.draw(&id);
    assert_eq!(calls.len(), 1);
    let q = calls[0].payload;
    assert_eq!(q.texture, 42);
    assert_eq!(q.specular_reflectance, v(1, 2, 3));
    assert_eq!(q.phong_q, 64);
    assert_eq!(q.color, v(9, 9, 9));
    assert_eq!(q.geometry, p.geometry);
    assert_eq!(q.bbox_min, p.bbox_min);
    assert_eq!(q.bbox_max, p.bbox_max);
    // On a payload-less group the builders leave nothing behind.
    let g = SceneNode::group(vec![]).with_texture(42);
    assert_eq!(g.get_bbox_min(), None);
}

#[test]
fn builders_apply_to_the_root_payload_only() {
    let pa = cube_payload(1);
    let pb = cube_payload(2);
    let id = Transform::identity();
    let n = SceneNode::leaf(pa).attach(SceneNode::leaf(pb)).with_texture(7);
    let calls = n.draw(&id);
    assert_eq!(calls[0].payload.texture, 7);
    assert_eq!(calls[1].payload.texture, 0);
}

#[test]
fn with_transform_replaces_wholesale() {
    let p = cube_payload(1);
    let t = Transform::translate(5, 6, 7);
    let n = SceneNode::leaf(p).translate(1, 1, 1).with_transform(t);
    assert_eq!(n.get_matrix(), t);
}

#[test]
fn transforms_fit_rejects_overflowing_trees() {
    let p = cube_payload(1);
    let id = Transform::identity();
    let huge = SceneNode::leaf(p).with_transform(Transform::scale(i64::MAX, 1, 1));
    let parent = SceneNode::leaf(p).with_transform(Transform::scale(2, 1, 1));
    let tree = parent.attach(huge);
    assert!(!tree.transforms_fit(&id));
    let tame = SceneNode::leaf(p).attach(SceneNode::leaf(p));
    assert!(tame.transforms_fit(&id));
}

#[test]
fn point_box_checks() {
    let lo = v(-5, -5, -5);
    let hi = v(5, 5, 5);
    assert!(check_point_bbox_intersection(&lo, &hi, &v(0, 0, 0)));
    assert!(check_point_bbox_intersection(&lo, &hi, &v(5, 5, 5)));
    assert!(!check_point_bbox_intersection(&lo, &hi, &v(6, 0, 0)));
}

#[test]
fn box_box_checks() {
    let lo = v(-5, -5, -5);
    let hi = v(5, 5, 5);
    // Touching on one axis counts; separated on one axis does not.
    assert!(check_bbox_bbox_intersection(&lo, &hi, &v(5, -5, -5), &v(15, 5, 5)));
    assert!(!check_bbox_bbox_intersection(&lo, &hi, &v(6, -5, -5), &v(15, 5, 5)));
    // Fully contained boxes intersect.
    assert!(check_bbox_bbox_intersection(&lo, &hi, &v(-1, -1, -1), &v(1, 1, 1)));
}
