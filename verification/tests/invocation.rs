use esbuild_rs::bridge::AllocationPointer;
use esbuild_rs::{
    build_callback, build_direct, transform_callback, transform_direct,
    transform_direct_unmanaged, BuildOptionsBuilder, BuildResult, EncodingError, Message,
    OutputFile, StrContainer, TransformOptionsBuilder, TransformResult,
};
use std::cell::{Cell, RefCell};
use std::rc::Rc;
use std::sync::Arc;

fn text(content: &str) -> StrContainer {
    StrContainer::from_bytes(content.as_bytes().to_vec()).expect("the content is text")
}

fn message(file: &str, line: isize, column: isize, content: &str) -> Message {
    Message { file: text(file), line, column, length: 1, text: text(content) }
}

#[test]
fn transform_is_prepared_with_handles_and_encoded_input() {
    let code = Arc::new(b"let ax = 1".to_vec());
    let options = TransformOptionsBuilder::new().build();
    let call = transform_direct(code.clone(), options.clone(), |_result: TransformResult| {})
        .expect("the input is text");
    assert_eq!(call.go_code.p, AllocationPointer::Storage);
    assert_eq!(call.go_code.n, 10);
    assert!(call.go_code.managed.is_none());
    let kept_code = call.cb_data.src_vec_arc.as_ref().expect("the input is kept");
    assert!(Arc::ptr_eq(kept_code, &code));
    let kept_options = call.cb_data.opt_arc.as_ref().expect("the configuration is kept");
    assert!(Arc::ptr_eq(kept_options, &options));
    assert_eq!(call.go_code.read(kept_code), Some(b"let ax = 1".to_vec()));
}

#[test]
fn transform_of_empty_input_points_at_fallback() {
    let code = Arc::new(Vec::new());
    let options = TransformOptionsBuilder::new().build();
    let call = transform_direct(code, options, |_result: TransformResult| {})
        .expect("empty input is text");
    assert_eq!(call.go_code.p, AllocationPointer::Fallback);
    assert_eq!(call.go_code.n, 0);
}

#[test]
fn transform_refuses_input_that_is_not_text() {
    let called = Rc::new(Cell::new(0u32));
    let seen = called.clone();
    let code = Arc::new(vec![b'l', b'e', b't', 0xff, 0xfe]);
    let options = TransformOptionsBuilder::new().build();
    let refused =
        transform_direct(code.clone(), options.clone(), move |_result: TransformResult| {
            seen.set(seen.get() + 1);
        });
    assert_eq!(refused.err(), Some(EncodingError::InvalidUtf8));
    assert_eq!(called.get(), 0);
    assert_eq!(Arc::strong_count(&code), 1);
    assert_eq!(Arc::strong_count(&options), 1);
}

#[test]
fn unmanaged_transform_refuses_input_that_is_not_text() {
    let options = TransformOptionsBuilder::new().build();
    let truncated = [0xe2u8, 0x9c];
    let refused = transform_direct_unmanaged(&truncated, &options, |_result: TransformResult| {});
    assert_eq!(refused.err(), Some(EncodingError::InvalidUtf8));
}

#[test]
fn unmanaged_transform_keeps_no_handle() {
    let code = b"let ax = 1".to_vec();
    let options = TransformOptionsBuilder::new().build();
    let call = transform_direct_unmanaged(&code, &options, |_result: TransformResult| {})
        .expect("the input is text");
    assert!(call.cb_data.src_vec_arc.is_none());
    assert!(call.cb_data.opt_arc.is_none());
    assert_eq!(call.go_code.n, 10);
    assert_eq!(call.go_code.p, AllocationPointer::Storage);
    assert_eq!(Arc::strong_count(&options), 1);
}

#[test]
fn transform_handler_runs_once_and_only_at_completion() {
    let called = Rc::new(Cell::new(0u32));
    let received = Rc::new(RefCell::new(None));
    let seen = called.clone();
    let slot = received.clone();
    let code = Arc::new(b"let ax = 1".to_vec());
    let options = TransformOptionsBuilder::new().build();
    let call = transform_direct(code, options, move |result: TransformResult| {
        seen.set(seen.get() + 1);
        *slot.borrow_mut() = Some(result);
    })
    .expect("the input is text");
    assert_eq!(called.get(), 0);

    transform_callback(
        call.cb_data,
        text("let ax = 1;\n"),
        text(""),
        Vec::new(),
        vec![message("input.js", 1, 4, "unused")],
    );
    assert_eq!(called.get(), 1);
    let result = received.borrow_mut().take().expect("the handler got the result");
    assert_eq!(result.code.as_str(), "let ax = 1;\n");
    assert_eq!(result.map.as_str(), "");
    assert_eq!(result.errors.as_slice().len(), 0);
    let warnings = result.warnings.as_slice();
    assert_eq!(warnings.len(), 1);
    assert_eq!(warnings[0].file.as_str(), "input.js");
    assert_eq!(warnings[0].line, 1);
    assert_eq!(warnings[0].column, 4);
    assert_eq!(warnings[0].length, 1);
    assert_eq!(warnings[0].text.as_str(), "unused");
}

#[test]
fn transform_result_arrives_through_the_handler_even_with_errors() {
    let received = Rc::new(RefCell::new(None));
    let slot = received.clone();
    let code = Arc::new(b"let = ;".to_vec());
    let options = TransformOptionsBuilder::new().build();
    let call = transform_direct(code, options, move |result: TransformResult| {
        *slot.borrow_mut() = Some(result);
    })
    .expect("the input is text");
    transform_callback(
        call.cb_data,
        text(""),
        text(""),
        vec![message("input.js", 1, 4, "Expected identifier"), message("input.js", 1, 6, "x")],
        Vec::new(),
    );
    let result = received.borrow_mut().take().expect("the handler got the result");
    assert_eq!(result.code.as_str(), "");
    let errors = result.errors.as_slice();
    assert_eq!(errors.len(), 2);
    assert_eq!(errors[0].text.as_str(), "Expected identifier");
    assert_eq!(errors[1].column, 6);
    assert_eq!(result.warnings.as_slice().len(), 0);
}

#[test]
fn transform_holds_one_handle_on_each_until_completion() {
    let code = Arc::new(b"let x = NAME;".to_vec());
    let mut builder = TransformOptionsBuilder::new();
    builder.define.add("NAME".to_string(), "world".to_string());
    let options = builder.build();
    assert_eq!(Arc::strong_count(&code), 1);
    assert_eq!(Arc::strong_count(&options), 1);

    let call = transform_direct(code.clone(), options.clone(), |_result: TransformResult| {})
        .expect("the input is text");
    assert_eq!(Arc::strong_count(&code), 2);
    assert_eq!(Arc::strong_count(&options), 2);

    transform_callback(call.cb_data, text("let x = world;\n"), text(""), Vec::new(), Vec::new());
    assert_eq!(Arc::strong_count(&code), 1);
    assert_eq!(Arc::strong_count(&options), 1);
}

#[test]
fn handles_are_let_go_before_the_handler_runs() {
    let code = Arc::new(b"a".to_vec());
    let options = TransformOptionsBuilder::new().build();
    let seen = Rc::new(Cell::new((0usize, 0usize)));
    let counts = seen.clone();
    let watched_code = Arc::downgrade(&code);
    let watched_options = Arc::downgrade(&options);
    let call = transform_direct(code.clone(), options.clone(), move |_result: TransformResult| {
        counts.set((watched_code.strong_count(), watched_options.strong_count()));
    })
    .expect("the input is text");
    assert_eq!(Arc::strong_count(&code), 2);
    transform_callback(call.cb_data, text("a;\n"), text(""), Vec::new(), Vec::new());
    assert_eq!(seen.get(), (1, 1));
}

#[test]
fn calls_that_share_a_configuration_complete_in_any_order() {
    let options = TransformOptionsBuilder::new().build();
    let first_code = Arc::new(b"a".to_vec());
    let second_code = Arc::new(b"b".to_vec());
    let order = Rc::new(RefCell::new(Vec::new()));

    let log = order.clone();
    let first = transform_direct(first_code.clone(), options.clone(), move |_r: TransformResult| {
        log.borrow_mut().push("first");
    })
    .expect("the input is text");
    assert_eq!(Arc::strong_count(&options), 2);
    let log = order.clone();
    let second =
        transform_direct(second_code.clone(), options.clone(), move |_r: TransformResult| {
            log.borrow_mut().push("second");
        })
        .expect("the input is text");
    let log = order.clone();
    let third = transform_direct(first_code.clone(), options.clone(), move |_r: TransformResult| {
        log.borrow_mut().push("third");
    })
    .expect("the input is text");
    assert_eq!(Arc::strong_count(&options), 4);
    assert_eq!(Arc::strong_count(&first_code), 3);
    assert_eq!(Arc::strong_count(&second_code), 2);

    transform_callback(second.cb_data, text("b;\n"), text(""), Vec::new(), Vec::new());
    assert_eq!(Arc::strong_count(&options), 3);
    assert_eq!(Arc::strong_count(&second_code), 1);
    assert_eq!(Arc::strong_count(&first_code), 3);

    transform_callback(third.cb_data, text("a;\n"), text(""), Vec::new(), Vec::new());
    assert_eq!(Arc::strong_count(&options), 2);
    assert_eq!(Arc::strong_count(&first_code), 2);

    transform_callback(first.cb_data, text("a;\n"), text(""), Vec::new(), Vec::new());
    assert_eq!(Arc::strong_count(&options), 1);
    assert_eq!(Arc::strong_count(&first_code), 1);
    assert_eq!(*order.borrow(), vec!["second", "third", "first"]);
}

#[test]
fn many_calls_in_flight_leave_the_count_as_it_was() {
    let options = TransformOptionsBuilder::new().build();
    let code = Arc::new(b"let ax = 1".to_vec());
    let mut in_flight = Vec::new();
    for issued in 0..50usize {
        let call = transform_direct(code.clone(), options.clone(), |_r: TransformResult| {})
            .expect("the input is text");
        in_flight.push(call);
        assert_eq!(Arc::strong_count(&options), issued + 2);
        assert_eq!(Arc::strong_count(&code), issued + 2);
    }
    let mut left = 50usize;
    while !in_flight.is_empty() {
        let next = (left * 7) % in_flight.len();
        let call = in_flight.swap_remove(next);
        transform_callback(call.cb_data, text("let ax=1;"), text(""), Vec::new(), Vec::new());
        left -= 1;
        assert_eq!(Arc::strong_count(&options), left + 1);
        assert_eq!(Arc::strong_count(&code), left + 1);
    }
    assert_eq!(Arc::strong_count(&options), 1);
    assert_eq!(Arc::strong_count(&code), 1);
}

#[test]
fn build_holds_one_handle_until_completion() {
    let mut builder = BuildOptionsBuilder::new();
    builder.entry_points.push("index.js".to_string());
    let options = builder.build();
    let first = build_direct(options.clone(), |_result: BuildResult| {});
    let second = build_direct(options.clone(), |_result: BuildResult| {});
    assert_eq!(Arc::strong_count(&options), 3);
    assert!(Arc::ptr_eq(&first.opt_arc, &options));
    build_callback(first, Vec::new(), Vec::new(), Vec::new());
    assert_eq!(Arc::strong_count(&options), 2);
    build_callback(second, Vec::new(), Vec::new(), Vec::new());
    assert_eq!(Arc::strong_count(&options), 1);
}

#[test]
fn build_handler_runs_once_with_the_wrapped_result() {
    let called = Rc::new(Cell::new(0u32));
    let received = Rc::new(RefCell::new(None));
    let seen = called.clone();
    let slot = received.clone();
    let mut builder = BuildOptionsBuilder::new();
    builder.entry_points.push("samplejs/input.js".to_string());
    builder.minify_whitespace = true;
    let data = build_direct(builder.build(), move |result: BuildResult| {
        seen.set(seen.get() + 1);
        *slot.borrow_mut() = Some(result);
    });
    assert_eq!(called.get(), 0);
    build_callback(
        data,
        vec![
            OutputFile { path: text("samplejs/output.js"), data: text("let a=1;\n") },
            OutputFile { path: text("samplejs/output.js.map"), data: text("{}") },
        ],
        Vec::new(),
        vec![message("samplejs/input.js", 3, 0, "note")],
    );
    assert_eq!(called.get(), 1);
    let result = received.borrow_mut().take().expect("the handler got the result");
    let files = result.output_files.as_slice();
    assert_eq!(files.len(), 2);
    assert_eq!(files[0].path.as_str(), "samplejs/output.js");
    assert_eq!(files[0].data.as_str(), "let a=1;\n");
    assert_eq!(files[1].path.as_str(), "samplejs/output.js.map");
    assert_eq!(result.errors.as_slice().len(), 0);
    assert_eq!(result.warnings.as_slice().len(), 1);
    assert_eq!(result.warnings.as_slice()[0].line, 3);
}
