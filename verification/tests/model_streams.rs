use wvt::math::WORD_ONE;
use wvt::model::ModelGeometry;

#[test]
fn streams_regroup_into_elements() {
    let positions = vec![1, 2, 3, 4, 5, 6];
    let colors = vec![7, 8, 9];
    let normals = vec![10, 11, 12, 13, 14, 15];
    let texcoords = vec![16, 17, 18, 19];
    let indices = vec![0, 1, 2, 1, 3, 2];
    let g = ModelGeometry::from_streams(&positions, &colors, &normals, &texcoords, &indices);
    assert_eq!(g.positions.len(), 2);
    assert_eq!(g.positions[0].position, [1, 2, 3]);
    assert_eq!(g.positions[1].position, [4, 5, 6]);
    assert_eq!(g.colors.len(), 1);
    assert_eq!(g.colors[0].color, [7, 8, 9, WORD_ONE]);
    assert_eq!(g.normals.len(), 2);
    assert_eq!(g.normals[0].normal, [10, 11, 12]);
    assert_eq!(g.normals[1].normal, [13, 14, 15]);
    assert_eq!(g.tex_coords.len(), 2);
    assert_eq!(g.tex_coords[0].position, [16, 17]);
    assert_eq!(g.tex_coords[1].position, [18, 19]);
    assert_eq!(g.indices, indices);
}

#[test]
fn empty_streams_stay_empty() {
    let g = ModelGeometry::from_streams(&vec![], &vec![], &vec![], &vec![], &vec![]);
    assert!(g.positions.is_empty());
    assert!(g.colors.is_empty());
    assert!(g.normals.is_empty());
    assert!(g.tex_coords.is_empty());
    assert!(g.indices.is_empty());
}

#[test]
fn colors_get_opaque_alpha() {
    let g = ModelGeometry::from_streams(&vec![1, 2, 3], &vec![20, 30, 40], &vec![], &vec![], &vec![]);
    assert_eq!(g.colors[0].color[3], WORD_ONE);
}
