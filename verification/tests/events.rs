use product_viewer::app::App;
use product_viewer::product::parse_json_product;
use product_viewer::product::Product;
use product_viewer::ui::handle_event;
use product_viewer::ui::row_cells;
use product_viewer::ui::InputEvent;
use product_viewer::ui::LoopControl;

fn record(title: &str) -> Product {
    let text = format!(
        "[{{\"_id\":\"x\",\"actual_price\":\"500\",\"average_rating\":\"3.9\",\"brand\":\"BrandX\",\"category\":\"Shoes\",\"crawled_at\":\"2021-02-03\",\"description\":\"d\",\"discount\":\"5% off\",\"images\":[],\"out_of_stock\":false,\"pid\":\"P\",\"product_details\":[],\"seller\":\"S\",\"selling_price\":\"475\",\"sub_category\":\"Casual\",\"title\":\"{}\",\"url\":\"u\"}}]",
        title
    );
    let mut products = parse_json_product(&text).expect("the record decodes");
    products.pop().expect("one record")
}

fn three_records() -> Vec<Product> {
    vec![record("first"), record("second"), record("third")]
}

#[test]
fn three_downs_cycle_through_the_rows() {
    let mut app = App::new(three_records());
    assert_eq!(app.selected, Some(0));
    assert_eq!(handle_event(&mut app, InputEvent::Down), LoopControl::Continue);
    assert_eq!(app.selected, Some(1));
    assert_eq!(handle_event(&mut app, InputEvent::Down), LoopControl::Continue);
    assert_eq!(app.selected, Some(2));
    assert_eq!(handle_event(&mut app, InputEvent::Down), LoopControl::Continue);
    assert_eq!(app.selected, Some(0));
}

#[test]
fn up_from_the_first_row_wraps_to_the_last() {
    let mut app = App::new(three_records());
    assert_eq!(handle_event(&mut app, InputEvent::Up), LoopControl::Continue);
    assert_eq!(app.selected, Some(2));
}

#[test]
fn quit_key_stops_the_loop_and_keeps_the_selection() {
    let mut app = App::new(three_records());
    handle_event(&mut app, InputEvent::Down);
    assert_eq!(handle_event(&mut app, InputEvent::Char('q')), LoopControl::Stop);
    assert_eq!(app.selected, Some(1));
}

#[test]
fn capital_quit_key_stops_the_loop() {
    let mut app = App::new(three_records());
    assert_eq!(handle_event(&mut app, InputEvent::Char('Q')), LoopControl::Stop);
    assert_eq!(app.selected, Some(0));
}

#[test]
fn other_keys_are_inert() {
    let mut app = App::new(three_records());
    assert_eq!(handle_event(&mut app, InputEvent::Char('x')), LoopControl::Continue);
    assert_eq!(app.selected, Some(0));
    assert_eq!(handle_event(&mut app, InputEvent::Other), LoopControl::Continue);
    assert_eq!(app.selected, Some(0));
}

#[test]
fn events_on_an_empty_set_never_crash() {
    let mut app = App::new(Vec::new());
    assert_eq!(handle_event(&mut app, InputEvent::Down), LoopControl::Continue);
    assert_eq!(handle_event(&mut app, InputEvent::Up), LoopControl::Continue);
    assert_eq!(app.selected, None);
    assert_eq!(handle_event(&mut app, InputEvent::Char('q')), LoopControl::Stop);
}

#[test]
fn row_cells_follow_the_column_order() {
    let p = record("A Fine Shirt");
    let cells = row_cells(&p);
    assert_eq!(
        cells,
        vec![
            "A Fine Shirt".to_string(),
            "BrandX".to_string(),
            "500".to_string(),
            "5% off".to_string(),
            "3.9".to_string(),
            "Shoes".to_string(),
        ]
    );
}
