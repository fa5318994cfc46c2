use fere::ori::Ori;

#[test]
fn ori_hands_its_parts_back() {
    let identity = [[1.0f32, 0.0, 0.0, 0.0], [0.0, 1.0, 0.0, 0.0], [0.0, 0.0, 1.0, 0.0], [0.0, 0.0, 0.0, 1.0]];
    let ori = Ori::from_parts(
        [1.0f32, 2.0, 3.0],
        [4.0, 5.0, 6.0],
        [1.0, 0.0, 0.0],
        [0.0, 1.0, 0.0],
        [0.0, 0.0, 1.0],
        identity,
    );
    assert_eq!(*ori.pos(), [1.0, 2.0, 3.0]);
    assert_eq!(*ori.size(), [4.0, 5.0, 6.0]);
    assert_eq!(*ori.xdir(), [1.0, 0.0, 0.0]);
    assert_eq!(*ori.ydir(), [0.0, 1.0, 0.0]);
    assert_eq!(*ori.zdir(), [0.0, 0.0, 1.0]);
    assert_eq!(*ori.trans(), identity);
}
