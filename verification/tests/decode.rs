use product_viewer::product::parse_json_product;
use product_viewer::product::DecodeError;

fn product_object(n: usize) -> String {
    format!(
        "{{\"_id\":\"id-{n}\",\"actual_price\":\"1{n}99\",\"average_rating\":\"4.{n}\",\"brand\":\"Brand{n}\",\"category\":\"Category{n}\",\"crawled_at\":\"2021-0{m}-01\",\"description\":\"Item number {n}\",\"discount\":\"{n}0% off\",\"images\":[\"img-{n}-a.jpg\",\"img-{n}-b.jpg\"],\"out_of_stock\":{stock},\"pid\":\"PID{n}\",\"product_details\":[{{\"Style Code\":\"SC{n}\"}},{{\"Color\":\"Blue\",\"Fabric\":\"Cotton\"}}],\"seller\":\"Seller{n}\",\"selling_price\":\"{n}89\",\"sub_category\":\"Sub{n}\",\"title\":\"Product {n}\",\"url\":\"https://example.invalid/item/{n}\"}}",
        n = n,
        m = n + 1,
        stock = n % 2 == 1,
    )
}

#[test]
fn valid_array_decodes_every_record_in_order() {
    let text = format!("[{},{},{}]", product_object(0), product_object(1), product_object(2));
    let products = parse_json_product(&text).expect("a valid document decodes");
    assert_eq!(products.len(), 3);
    for (n, p) in products.iter().enumerate() {
        assert_eq!(p._id, format!("id-{}", n));
        assert_eq!(p.actual_price, format!("1{}99", n));
        assert_eq!(p.average_rating, format!("4.{}", n));
        assert_eq!(p.brand, format!("Brand{}", n));
        assert_eq!(p.category, format!("Category{}", n));
        assert_eq!(p.crawled_at, format!("2021-0{}-01", n + 1));
        assert_eq!(p.description, format!("Item number {}", n));
        assert_eq!(p.discount, format!("{}0% off", n));
        assert_eq!(
            p.images,
            vec![format!("img-{}-a.jpg", n), format!("img-{}-b.jpg", n)]
        );
        assert_eq!(p.out_of_stock, n % 2 == 1);
        assert_eq!(p.pid, format!("PID{}", n));
        assert_eq!(
            p.product_details,
            vec![
                vec![("Style Code".to_string(), format!("SC{}", n))],
                vec![
                    ("Color".to_string(), "Blue".to_string()),
                    ("Fabric".to_string(), "Cotton".to_string()),
                ],
            ]
        );
        assert_eq!(p.seller, format!("Seller{}", n));
        assert_eq!(p.selling_price, format!("{}89", n));
        assert_eq!(p.sub_category, format!("Sub{}", n));
        assert_eq!(p.title, format!("Product {}", n));
        assert_eq!(p.url, format!("https://example.invalid/item/{}", n));
    }
}

#[test]
fn empty_array_decodes_to_empty_set() {
    let products = parse_json_product("[]").expect("an empty array decodes");
    assert_eq!(products.len(), 0);
}

#[test]
fn truncated_array_is_a_syntax_error() {
    let text = format!("[{},", product_object(0));
    assert_eq!(parse_json_product(&text).unwrap_err(), DecodeError::Syntax);
}

#[test]
fn malformed_text_is_a_syntax_error() {
    assert_eq!(parse_json_product("").unwrap_err(), DecodeError::Syntax);
    assert_eq!(parse_json_product("[{").unwrap_err(), DecodeError::Syntax);
    assert_eq!(parse_json_product("not json").unwrap_err(), DecodeError::Syntax);
    assert_eq!(parse_json_product("[1, 2,]").unwrap_err(), DecodeError::Syntax);
}

#[test]
fn top_level_object_is_a_shape_error() {
    let text = product_object(0);
    assert_eq!(parse_json_product(&text).unwrap_err(), DecodeError::Shape);
}

#[test]
fn missing_field_is_a_shape_error() {
    let full = product_object(0);
    let without_title = full.replace("\"title\":\"Product 0\",", "");
    let text = format!("[{}]", without_title);
    assert_eq!(parse_json_product(&text).unwrap_err(), DecodeError::Shape);
}

#[test]
fn wrong_field_type_is_a_shape_error() {
    let full = product_object(0);
    let numeric_title = full.replace("\"title\":\"Product 0\"", "\"title\":7");
    let text = format!("[{}]", numeric_title);
    assert_eq!(parse_json_product(&text).unwrap_err(), DecodeError::Shape);
}

#[test]
fn non_string_image_is_a_shape_error() {
    let full = product_object(0);
    let bad_images = full.replace(
        "\"images\":[\"img-0-a.jpg\",\"img-0-b.jpg\"]",
        "\"images\":[\"img-0-a.jpg\",null]",
    );
    let text = format!("[{}]", bad_images);
    assert_eq!(parse_json_product(&text).unwrap_err(), DecodeError::Shape);
}

#[test]
fn non_object_detail_is_a_shape_error() {
    let full = product_object(0);
    let bad_details = full.replace(
        "\"product_details\":[{\"Style Code\":\"SC0\"}",
        "\"product_details\":[\"SC0\"",
    );
    let text = format!("[{}]", bad_details);
    assert_eq!(parse_json_product(&text).unwrap_err(), DecodeError::Shape);
}

#[test]
fn non_string_detail_value_is_a_shape_error() {
    let full = product_object(0);
    let bad_details = full.replace("\"Color\":\"Blue\"", "\"Color\":3");
    let text = format!("[{}]", bad_details);
    assert_eq!(parse_json_product(&text).unwrap_err(), DecodeError::Shape);
}

#[test]
fn one_bad_record_rejects_the_whole_set() {
    let good = product_object(0);
    let bad = product_object(1).replace("\"brand\":\"Brand1\",", "");
    let text = format!("[{},{}]", good, bad);
    assert_eq!(parse_json_product(&text).unwrap_err(), DecodeError::Shape);
}

#[test]
fn unknown_fields_are_ignored() {
    let full = product_object(0);
    let with_extra = full.replace("\"pid\":\"PID0\",", "\"pid\":\"PID0\",\"extra\":[1,2,3],");
    let text = format!("[{}]", with_extra);
    let products = parse_json_product(&text).expect("extra fields do not reject the record");
    assert_eq!(products.len(), 1);
    assert_eq!(products[0].pid, "PID0");
}
