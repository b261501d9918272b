use application_boot::beans::{Bean, BeanKind, DefaultListableBeanFactory};
use application_boot::context::DefaultBootstrapContext;
use application_boot::initializer::ContextId;
use application_boot::properties::BootstrapProperties;

fn context_id(id: &str) -> Bean {
    Bean::ContextId(ContextId { id: id.to_string() })
}

fn id_of(b: Option<&Bean>) -> Option<String> {
    match b {
        Some(Bean::ContextId(c)) => Some(c.id.clone()),
        _ => None,
    }
}

#[test]
fn set_then_try_get_returns_value() {
    let mut f = DefaultListableBeanFactory::new();
    assert!(f.set(context_id("one")));
    assert_eq!(id_of(f.try_get(BeanKind::ContextId)), Some("one".to_string()));
    assert!(f.try_get(BeanKind::Registration).is_none());
    assert_eq!(f.get_bean_definition_count(), 1);
}

#[test]
fn second_set_replaces_value() {
    let mut f = DefaultListableBeanFactory::new();
    assert!(f.set(context_id("one")));
    assert!(!f.set(context_id("two")));
    assert_eq!(id_of(f.try_get(BeanKind::ContextId)), Some("two".to_string()));
    assert_eq!(f.get_bean_definition_count(), 1);
}

#[test]
fn get_returns_registered_value() {
    let mut f = DefaultListableBeanFactory::new();
    f.set(context_id("x"));
    assert_eq!(id_of(Some(f.get(BeanKind::ContextId))), Some("x".to_string()));
    assert!(f.is_registered(BeanKind::ContextId));
    assert!(!f.is_registered(BeanKind::DiscoveryServer));
}

#[test]
fn register_if_absent_keeps_first_value() {
    let mut ctx = DefaultBootstrapContext::new(BootstrapProperties::default());
    ctx.register_if_absent(context_id("first"));
    ctx.register_if_absent(context_id("second"));
    assert_eq!(id_of(ctx.get(BeanKind::ContextId)), Some("first".to_string()));
    assert!(ctx.is_registered(BeanKind::ContextId));
}

#[test]
fn empty_registry_has_nothing() {
    let f = DefaultListableBeanFactory::new();
    assert_eq!(f.get_bean_definition_count(), 0);
    assert!(f.try_get(BeanKind::ContextId).is_none());
}

#[test]
fn removed_bean_is_gone() {
    let mut ctx = DefaultBootstrapContext::new(BootstrapProperties::default());
    ctx.register(context_id("a"));
    assert_eq!(id_of(ctx.remove(BeanKind::ContextId).as_ref()), Some("a".to_string()));
    assert!(!ctx.is_registered(BeanKind::ContextId));
    assert!(ctx.remove(BeanKind::ContextId).is_none());
}
