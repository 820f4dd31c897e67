use runtime_factors::factor::{MyFactor, MyFactorStateInstanceBuilder};

#[test]
fn factor_steps_always_succeed() {
    let mut f = MyFactor {};
    assert!(f.init().is_ok());
    assert!(f == MyFactor {});
    assert!(f.configure_app().is_ok());
    let b = f.prepare().unwrap();
    assert!(b == MyFactorStateInstanceBuilder {});
    assert!(f.prepare().is_ok());
}
