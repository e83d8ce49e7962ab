use zed_logic::variable_list::center_truncate_string;

#[test]
fn test_center_truncate_string() {
    assert_eq!(center_truncate_string("short", 10), "short");
    assert_eq!(center_truncate_string("exactly_10", 10), "exactly_10");
    assert_eq!(
        center_truncate_string("value->value2->value3->value4", 20),
        "value->v...3->value4"
    );
    assert_eq!(
        center_truncate_string(
            "object->property1->property2->property3->property4->property5",
            30
        ),
        "object->prope...ty4->property5"
    );
    assert_eq!(center_truncate_string("anything", 3), "any");
    assert_eq!(center_truncate_string("anything", 2), "any");
    assert_eq!(
        center_truncate_string("café->résumé->naïve->voilà", 15),
        "café->...>voilà"
    );
    assert_eq!(
        center_truncate_string("😀->happy->face->😎->cool", 15),
        "😀->hap...->cool"
    );
}

#[test]
fn center_truncate_small_limit_above_ellipsis() {
    assert_eq!(center_truncate_string("abcdefgh", 5), "abc");
    assert_eq!(center_truncate_string("abcdefgh", 6), "a...gh");
}
