# music_w

NetEase Cloud Music "weapi" request encryption and the cellphone/SMS-captcha
login requests, written in Verus.

- `src/` is the verified library: the weapi encryption (double AES-128-CBC of
  the request text, Base64; RSA of the reversed random secret key, hex), the
  JSON bodies of the captcha and login requests, their URLs and headers, and
  the decisions read from the answers. Calls into `aes`/`cbc`, `rsa`, `rand`,
  `base64`, `hex` and `serde_json` stand behind small trusted wrappers whose
  contracts are stated in their doc comments.
- `app/` is the unverified network side: it posts the prepared requests with
  `reqwest` and parses the answers with serde.
- `tests/` exercises the library on concrete values.
