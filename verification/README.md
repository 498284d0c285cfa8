# ts_printer

A printer for TypeScript syntax trees, written in Verus and proved against its
specification.

The layout of every node is stated as a *document*: a sequence of pieces
(text, line break, one step of indentation in or out). `doc::doc_node` gives the
document of a node; the text writer turns a document into text. Each function
that writes a node is proved to append exactly that node's document to the
writer, so the public entry points (`Printer::emit`, `Printer::emit_source_file`,
`Printer::write_node`) are specified by the text their documents lay out.

Modules:

- `ast`: the syntax tree the printer reads.
- `doc`: the document of each kind of node, list formats, and the rules for
  parentheses and spacing.
- `text_writer`: documents, their nesting, the writer state they act on, and the
  executable writer.
- `emit` (private): the functions that write each kind of node.
- `printer`: options, the printer, and its public entry points.
- `precedence`, `tokens`, `list_format`, `layout`, `positions`: operator and
  type precedences, token texts, list format flags, line break counts of lists,
  and line arithmetic over source text.
- `laws`: properties of the printer as a whole, such as that every document is
  well nested (so printing a node or a list leaves the indentation as it found
  it), that a list writes each of its items once and in order, that the text
  printed for a source file is empty or ends with a line break, and when an
  operand is parenthesized.
- `emit_cases`: a table of source texts and the text printed for each.
