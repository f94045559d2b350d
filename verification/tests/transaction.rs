use std::borrow::Cow;

use exonum_tx::{
    panic_description, status_as_u16, ExecutionError, ExecutionResult, PanicPayload, Transaction,
    TransactionContext, TransactionError, TransactionErrorType, TransactionResult,
};

#[test]
fn execution_error_new() {
    let codes = [0, 1, 100, 255];

    for &code in &codes {
        let error = ExecutionError::new(code);
        assert_eq!(code, error.code);
        assert_eq!(None, error.description);
    }
}

#[test]
fn execution_error_with_description() {
    let values = [(0, ""), (1, "test"), (100, "error"), (255, "hello")];

    for value in &values {
        let error = ExecutionError::with_description(value.0, value.1);
        assert_eq!(value.0, error.code);
        assert_eq!(value.1, error.description.unwrap());
    }
}

#[test]
fn transaction_error_new() {
    let values = [
        (TransactionErrorType::Panic, None),
        (TransactionErrorType::Panic, Some("panic")),
        (TransactionErrorType::Code(0), None),
        (TransactionErrorType::Code(1), Some("")),
        (TransactionErrorType::Code(100), None),
        (TransactionErrorType::Code(255), Some("error description")),
    ];

    for value in &values {
        let error = TransactionError::new(value.0, value.1.map(str::to_owned));
        assert_eq!(value.0, error.error_type());
        assert_eq!(value.1.as_ref().map(|d| d.as_ref()), error.description());
    }
}

#[test]
fn errors_conversion() {
    let execution_errors = [
        ExecutionError::new(0),
        ExecutionError::new(255),
        ExecutionError::with_description(1, ""),
        ExecutionError::with_description(1, "Terrible failure"),
    ];

    for execution_error in &execution_errors {
        let transaction_error: TransactionError = execution_error.clone().into();
        assert_eq!(
            execution_error.description.as_ref().map(|d| d.as_str()),
            transaction_error.description()
        );

        let code = match transaction_error.error_type() {
            TransactionErrorType::Code(c) => c,
            _ => panic!("Unexpected transaction error type"),
        };
        assert_eq!(execution_error.code, code);
    }
}

#[test]
fn transaction_results_round_trip() {
    let results = [
        Ok(()),
        Err(TransactionError::panic(None)),
        Err(TransactionError::panic(Some("".to_owned()))),
        Err(TransactionError::panic(Some("Panic error description".to_owned()))),
        Err(TransactionError::code(0, None)),
        Err(TransactionError::code(0, Some("Some error description".to_owned()))),
        Err(TransactionError::code(1, None)),
        Err(TransactionError::code(1, Some("".to_owned()))),
        Err(TransactionError::code(100, None)),
        Err(TransactionError::code(100, Some("just error".to_owned()))),
        Err(TransactionError::code(254, None)),
        Err(TransactionError::code(254, Some("e".to_owned()))),
        Err(TransactionError::code(255, None)),
        Err(TransactionError::code(
            255,
            Some("(Not) really long error description".to_owned()),
        )),
    ]
    .iter()
    .map(|res| TransactionResult(res.to_owned()))
    .collect::<Vec<_>>();

    for result in &results {
        let bytes = result.clone().into_bytes();
        let new_result = TransactionResult::from_bytes(Cow::Borrowed(&bytes));
        assert_eq!(*result, new_result);
    }
}

#[test]
fn str_panic() {
    let static_str = "Static string (&str)";
    let panic = PanicPayload::Str(static_str.to_owned());
    assert_eq!(Some(static_str.to_string()), panic_description(&panic));
}

#[test]
fn string_panic() {
    let string = "Owned string (String)".to_owned();
    let error = PanicPayload::Owned(string.clone());
    assert_eq!(Some(string), panic_description(&error));
}

#[test]
#[allow(deprecated)]
fn box_error_panic() {
    let error: Box<dyn std::error::Error + Send> = Box::new("e".parse::<i32>().unwrap_err());
    let description = error.description().to_owned();
    let error = PanicPayload::Error(description.clone());
    assert_eq!(Some(description), panic_description(&error));
}

#[test]
fn unknown_panic() {
    let error = PanicPayload::Other;
    assert_eq!(None, panic_description(&error));
}

#[test]
fn transaction_error_from_panic() {
    let error = TransactionError::from_panic(&PanicPayload::Str("boom".to_owned()));
    assert_eq!(TransactionErrorType::Panic, error.error_type());
    assert_eq!(Some("boom"), error.description());

    let error = TransactionError::from_panic(&PanicPayload::Other);
    assert_eq!(TransactionErrorType::Panic, error.error_type());
    assert_eq!(None, error.description());
}

#[test]
fn transaction_error_to_string() {
    assert_eq!(
        "Panic during execution",
        TransactionError::panic(None).to_string()
    );
    assert_eq!(
        "Panic during execution description: oops",
        TransactionError::panic(Some("oops".to_owned())).to_string()
    );
    assert_eq!("Error code: 0", TransactionError::code(0, None).to_string());
    assert_eq!("Error code: 7", TransactionError::code(7, None).to_string());
    assert_eq!("Error code: 42", TransactionError::code(42, None).to_string());
    assert_eq!(
        "Error code: 255 description: bad input",
        TransactionError::code(255, Some("bad input".to_owned())).to_string()
    );
    assert_eq!(
        "Error code: 100 description: ",
        TransactionError::code(100, Some(String::new())).to_string()
    );
}

#[test]
fn status_codes() {
    assert_eq!(256, status_as_u16(&TransactionResult(Ok(()))));
    assert_eq!(
        257,
        status_as_u16(&TransactionResult(Err(TransactionError::panic(None))))
    );
    assert_eq!(
        0,
        status_as_u16(&TransactionResult(Err(TransactionError::code(0, None))))
    );
    assert_eq!(
        255,
        status_as_u16(&TransactionResult(Err(TransactionError::code(
            255,
            Some("x".to_owned())
        ))))
    );
}

#[test]
fn stored_form() {
    assert_eq!(vec![0u8, 1, 0], TransactionResult(Ok(())).into_bytes());
    assert_eq!(
        vec![1u8, 1, 0],
        TransactionResult(Err(TransactionError::panic(None))).into_bytes()
    );
    assert_eq!(
        vec![7u8, 0, 1, b'a', b'b'],
        TransactionResult(Err(TransactionError::code(7, Some("ab".to_owned())))).into_bytes()
    );
    assert_eq!(
        vec![0u8, 0, 1, 0xc3, 0xa9],
        TransactionResult(Err(TransactionError::code(0, Some("é".to_owned())))).into_bytes()
    );
}

#[test]
fn from_bytes_owned_and_flags() {
    let result = TransactionResult::from_bytes(Cow::Owned(vec![7u8, 0, 1, b'h', b'i']));
    assert_eq!(
        TransactionResult(Err(TransactionError::code(7, Some("hi".to_owned())))),
        result
    );
    // Bytes after a cleared flag are not read.
    let result = TransactionResult::from_bytes(Cow::Borrowed(&[1u8, 1, 0, 0xff][..]));
    assert_eq!(TransactionResult(Err(TransactionError::panic(None))), result);
    // A description stored with a success is dropped.
    let result = TransactionResult::from_bytes(Cow::Borrowed(&[0u8, 1, 1, b'x'][..]));
    assert_eq!(TransactionResult(Ok(())), result);
}

#[test]
fn round_trip_unicode_description() {
    let result = TransactionResult(Err(TransactionError::code(
        3,
        Some("ошибка ✓ 🚀".to_owned()),
    )));
    let bytes = result.clone().into_bytes();
    assert_eq!(result, TransactionResult::from_bytes(Cow::Owned(bytes)));
}

#[test]
fn hash_depends_on_status_only() {
    let ok = TransactionResult(Ok(())).hash();
    assert_eq!(
        [
            180, 19, 244, 125, 19, 238, 47, 230, 200, 69, 178, 238, 20, 26, 248, 29, 232, 88,
            223, 78, 197, 73, 165, 139, 121, 112, 187, 150, 100, 91, 200, 210
        ],
        ok
    );
    let panic = TransactionResult(Err(TransactionError::panic(None))).hash();
    assert_eq!(
        [
            157, 207, 151, 161, 132, 243, 38, 35, 209, 26, 115, 18, 76, 235, 153, 165, 112, 155,
            8, 55, 33, 232, 120, 161, 109, 120, 245, 150, 113, 139, 167, 178
        ],
        panic
    );
    let described = TransactionResult(Err(TransactionError::panic(Some("why".to_owned())))).hash();
    assert_eq!(panic, described);
    let code = TransactionResult(Err(TransactionError::code(7, Some("seven".to_owned())))).hash();
    assert_eq!(
        [
            10, 99, 97, 179, 168, 2, 245, 92, 213, 174, 6, 16, 28, 136, 161, 226, 22, 50, 15, 225,
            28, 192, 207, 225, 215, 145, 238, 208, 138, 18, 0, 253
        ],
        code
    );
}

/// A transaction that records its index in a storage of `u64` values and
/// reports a fixed status.
struct RecordIndex {
    index: u64,
    status: ExecutionResult,
}

impl Transaction<Vec<u64>> for RecordIndex {
    fn execute(&self, mut context: TransactionContext<Vec<u64>>) -> ExecutionResult {
        context.fork().push(self.index);
        self.status.clone()
    }
}

#[test]
fn transaction_context_accessors() {
    let mut storage: Vec<u64> = vec![1];
    let mut context = TransactionContext::new(&mut storage, 255, [3u8; 32], [4u8; 32]);
    assert_eq!(255, context.service_id());
    assert_eq!([3u8; 32], context.tx_hash());
    assert_eq!([4u8; 32], context.author());
    context.fork().push(2);
    assert_eq!(vec![1u64, 2], storage);
}

#[test]
fn transaction_executes_in_context() {
    let tx = RecordIndex {
        index: 9,
        status: Err(ExecutionError::with_description(255, "Strange error")),
    };
    assert!(tx.verify());
    let mut storage: Vec<u64> = Vec::new();
    let status = tx.execute(TransactionContext::new(&mut storage, 1, [0u8; 32], [0u8; 32]));
    assert_eq!(vec![9u64], storage);
    let error: TransactionError = status.unwrap_err().into();
    assert_eq!(TransactionErrorType::Code(255), error.error_type());
    assert_eq!(Some("Strange error"), error.description());
}
